use waytify::ui::app::{MusicApp, HEADING, PAUSE_CAPTION, PLAY_CAPTION};

#[test]
fn default_player_is_paused() {
    let app = MusicApp::default();
    assert!(!app.playing);
}

#[test]
fn panel_texts() {
    assert_eq!(HEADING, "Rust Music Player");
    assert_eq!(PLAY_CAPTION, "Play");
    assert_eq!(PAUSE_CAPTION, "Pause");
}

#[test]
fn play_click_starts_playback() {
    let mut app = MusicApp::default();
    let out = app.ui(true, false);
    assert!(app.playing);
    assert_eq!(out.notices, vec!["Playing..."]);
    assert_eq!(out.status, "Status: Playing");
}

#[test]
fn pause_click_stops_playback() {
    let mut app = MusicApp { playing: true };
    let out = app.ui(false, true);
    assert!(!app.playing);
    assert_eq!(out.notices, vec!["Paused"]);
    assert_eq!(out.status, "Status: Paused");
}

#[test]
fn pause_click_on_a_paused_player_is_still_announced() {
    let mut app = MusicApp::default();
    let out = app.ui(false, true);
    assert!(!app.playing);
    assert_eq!(out.notices, vec!["Paused"]);
    assert_eq!(out.status, "Status: Paused");
}

#[test]
fn play_click_on_a_playing_player_keeps_it_playing() {
    let mut app = MusicApp { playing: true };
    let out = app.ui(true, false);
    assert!(app.playing);
    assert_eq!(out.notices, vec!["Playing..."]);
    assert_eq!(out.status, "Status: Playing");
}

#[test]
fn pause_has_the_last_word_when_both_are_clicked() {
    let mut app = MusicApp::default();
    let out = app.ui(true, true);
    assert!(!app.playing);
    assert_eq!(out.notices, vec!["Playing...", "Paused"]);
    assert_eq!(out.status, "Status: Paused");

    let mut app = MusicApp { playing: true };
    let out = app.ui(true, true);
    assert!(!app.playing);
    assert_eq!(out.notices, vec!["Playing...", "Paused"]);
    assert_eq!(out.status, "Status: Paused");
}

#[test]
fn frame_without_click_keeps_the_flag() {
    let mut app = MusicApp::default();
    let out = app.ui(false, false);
    assert!(!app.playing);
    assert!(out.notices.is_empty());
    assert_eq!(out.status, "Status: Paused");

    let mut app = MusicApp { playing: true };
    let out = app.ui(false, false);
    assert!(app.playing);
    assert!(out.notices.is_empty());
    assert_eq!(out.status, "Status: Playing");
}

#[test]
fn flag_follows_a_run_of_frames() {
    let mut app = MusicApp::default();
    let frames = [
        (false, false, false),
        (true, false, true),
        (false, false, true),
        (false, true, false),
        (true, false, true),
        (true, true, false),
        (false, false, false),
    ];
    for (play_clicked, pause_clicked, playing) in frames {
        let out = app.ui(play_clicked, pause_clicked);
        assert_eq!(app.playing, playing);
        let status = if playing { "Status: Playing" } else { "Status: Paused" };
        assert_eq!(out.status, status);
    }
}
