//! Decision core of a small desktop music player.
//!
//! The player opens a window, keeps an audio output stream alive and draws a
//! panel with a Play and a Pause button. Everything that touches the window,
//! the GPU or the audio device lives with the program around this crate; the
//! crate holds the state those pieces share and every decision taken on it:
//!
//! * [`ui::app`]: the playback flag and what one pass over the panel does to it,
//! * [`shell`]: what the window's event handler does for each event,
//! * [`surface`]: how the drawing surface is sized and which format it gets.

pub mod shell;
pub mod surface;
pub mod ui;
