//! The playback flag and the panel with its two buttons.
//!
//! The panel is drawn top to bottom: a heading, the Play button, the Pause
//! button and a status label. Drawing the buttons tells the caller which of
//! them were clicked in this frame; [`MusicApp::ui`] takes those two answers,
//! updates the flag and says what the rest of the frame shows.

use vstd::prelude::*;

verus! {

/// Heading at the top of the panel.
pub const HEADING: &'static str = "Rust Music Player";

/// Caption of the button that starts playback.
pub const PLAY_CAPTION: &'static str = "Play";

/// Caption of the button that pauses playback.
pub const PAUSE_CAPTION: &'static str = "Pause";

/// State behind the panel: whether the player counts as playing.
pub struct MusicApp {
    pub playing: bool,
}

/// What one pass over the panel leaves for the caller to show.
pub struct PanelOutput {
    /// Lines for standard output, one per clicked button, in panel order.
    pub notices: Vec<&'static str>,
    /// Text of the status label under the buttons.
    pub status: &'static str,
}

impl Default for MusicApp {
    /// A fresh player is paused.
    fn default() -> (app: Self)
        ensures
            !app.playing,
    {
        Self { playing: false }
    }
}

impl MusicApp {
    /// The flag after both buttons have been handled. Play sets it and Pause
    /// clears it; Pause sits below Play, so it has the last word when both
    /// were clicked in one frame.
    pub open spec fn after_clicks(playing: bool, play_clicked: bool, pause_clicked: bool) -> bool {
        if pause_clicked {
            false
        } else if play_clicked {
            true
        } else {
            playing
        }
    }

    /// The lines announced for a frame's clicks: one for Play, then one for
    /// Pause.
    pub open spec fn notices(play_clicked: bool, pause_clicked: bool) -> Seq<Seq<char>> {
        let play = if play_clicked {
            seq!["Playing..."@]
        } else {
            Seq::empty()
        };
        let pause = if pause_clicked {
            seq!["Paused"@]
        } else {
            Seq::empty()
        };
        play + pause
    }

    /// Text of the status label for a given flag.
    pub open spec fn status_label(playing: bool) -> Seq<char> {
        if playing {
            "Status: Playing"@
        } else {
            "Status: Paused"@
        }
    }

    /// Handles one frame of the panel, given which buttons were clicked while
    /// it was drawn. The flag follows the clicks, each click is announced, and
    /// the status label shows the flag as it stands after them.
    pub fn ui(&mut self, play_clicked: bool, pause_clicked: bool) -> (out: PanelOutput)
        ensures
            final(self).playing == Self::after_clicks(
                old(self).playing,
                play_clicked,
                pause_clicked,
            ),
            out.notices@.len() == Self::notices(play_clicked, pause_clicked).len(),
            forall|i: int|
                0 <= i < out.notices@.len() ==> (#[trigger] out.notices@[i])@ == Self::notices(
                    play_clicked,
                    pause_clicked,
                )[i],
            out.status@ == Self::status_label(final(self).playing),
    {
        let mut notices: Vec<&'static str> = Vec::new();
        if play_clicked {
            self.playing = true;
            notices.push("Playing...");
        }
        if pause_clicked {
            self.playing = false;
            notices.push("Paused");
        }
        let status = if self.playing {
            "Status: Playing"
        } else {
            "Status: Paused"
        };
        PanelOutput { notices, status }
    }
}

} // verus!
