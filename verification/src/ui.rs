//! The panel shown inside the window.

pub mod app;
