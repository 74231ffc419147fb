use groovebox::events::{handle_key, AppAction, KeyCode, KeyEvent};
use groovebox::models::{PlayStatus, Playlist, Track};
use groovebox::state::{AppState, ContentView, Focus, NavSection, RepeatMode};

fn key(code: KeyCode) -> KeyEvent {
    KeyEvent { code, ctrl: false }
}

fn ch(c: char) -> KeyEvent {
    key(KeyCode::Char(c))
}

fn track(id: &str) -> Track {
    Track {
        id: None,
        youtube_id: id.to_string(),
        title: format!("Title {id}"),
        artist: "Artist".to_string(),
        duration_ms: 61_000,
        thumbnail_url: String::new(),
        youtube_url: format!("https://www.youtube.com/watch?v={id}"),
        codec: None,
        bitrate: None,
        sample_rate: None,
        channels: None,
        filesize: None,
        description: None,
    }
}

fn playlist(id: i64, name: &str) -> Playlist {
    Playlist { id: Some(id), name: name.to_string(), description: String::new(), category_id: None }
}

#[test]
fn ctrl_c_quits_from_anywhere() {
    let mut s = AppState::default();
    s.show_playlist_popup = true;
    let a = handle_key(&mut s, KeyEvent { code: KeyCode::Char('c'), ctrl: true });
    assert!(matches!(a, AppAction::Quit));
    assert!(s.show_playlist_popup);
}

#[test]
fn q_quits() {
    let mut s = AppState::default();
    assert!(matches!(handle_key(&mut s, ch('q')), AppAction::Quit));
}

#[test]
fn shuffle_toggles_with_toast() {
    let mut s = AppState::default();
    assert!(matches!(handle_key(&mut s, ch('s')), AppAction::NoOp));
    assert!(s.shuffle);
    assert_eq!(s.toast_message.as_deref(), Some("Shuffle: On"));
    assert_eq!(s.toast_timer, 30);
    handle_key(&mut s, ch('s'));
    assert!(!s.shuffle);
    assert_eq!(s.toast_message.as_deref(), Some("Shuffle: Off"));
}

#[test]
fn repeat_cycles_off_one_all() {
    let mut s = AppState::default();
    handle_key(&mut s, ch('r'));
    assert_eq!(s.repeat, RepeatMode::One);
    assert_eq!(s.toast_message.as_deref(), Some("Repeat: One"));
    handle_key(&mut s, ch('r'));
    assert_eq!(s.repeat, RepeatMode::All);
    assert_eq!(s.toast_message.as_deref(), Some("Repeat: All"));
    handle_key(&mut s, ch('r'));
    assert_eq!(s.repeat, RepeatMode::Off);
    assert_eq!(s.toast_message.as_deref(), Some("Repeat: Off"));
}

#[test]
fn tab_moves_between_navigation_and_queue() {
    let mut s = AppState::default();
    handle_key(&mut s, key(KeyCode::Tab));
    assert_eq!(s.focus, Focus::Queue);
    handle_key(&mut s, key(KeyCode::Tab));
    assert_eq!(s.focus, Focus::Navigation);
    handle_key(&mut s, ch('l'));
    assert_eq!(s.focus, Focus::Queue);
    handle_key(&mut s, ch('h'));
    assert_eq!(s.focus, Focus::Navigation);
    handle_key(&mut s, key(KeyCode::BackTab));
    assert_eq!(s.focus, Focus::Queue);
}

#[test]
fn slash_opens_search_and_typing_edits_query() {
    let mut s = AppState::default();
    handle_key(&mut s, ch('/'));
    assert_eq!(s.focus, Focus::SearchInput);
    assert_eq!(s.content_view, ContentView::SearchResults);
    for c in "lofi".chars() {
        handle_key(&mut s, ch(c));
    }
    assert_eq!(s.search_query, "lofi");
    handle_key(&mut s, key(KeyCode::Backspace));
    assert_eq!(s.search_query, "lof");
    match handle_key(&mut s, key(KeyCode::Enter)) {
        AppAction::Search(q) => assert_eq!(q, "lof"),
        other => panic!("unexpected {other:?}"),
    }
    assert!(s.searching);
    assert_eq!(s.focus, Focus::Queue);
}

#[test]
fn enter_with_empty_query_does_nothing() {
    let mut s = AppState::default();
    s.focus = Focus::SearchInput;
    assert!(matches!(handle_key(&mut s, key(KeyCode::Enter)), AppAction::NoOp));
    assert_eq!(s.focus, Focus::SearchInput);
    assert!(!s.searching);
    handle_key(&mut s, key(KeyCode::Esc));
    assert_eq!(s.focus, Focus::Queue);
}

#[test]
fn seek_accelerates_with_streak() {
    let mut s = AppState::default();
    s.playback.status = PlayStatus::Playing;
    s.focus = Focus::Queue;
    s.frame_count = 100;
    // Left on the queue panel moves focus instead of seeking.
    handle_key(&mut s, key(KeyCode::Left));
    assert_eq!(s.focus, Focus::Navigation);
    // Right on the navigation panel moves focus too; seek needs another focus.
    s.focus = Focus::Center;
    match handle_key(&mut s, key(KeyCode::Right)) {
        AppAction::Seek(d) => assert_eq!(d, 5),
        other => panic!("unexpected {other:?}"),
    }
    assert_eq!(s.toast_message.as_deref(), Some(">> 5s"));
    assert_eq!(s.toast_timer, 15);
    for _ in 0..3 {
        handle_key(&mut s, key(KeyCode::Left));
    }
    // Fifth seek in a row: 10 s back.
    match handle_key(&mut s, key(KeyCode::Left)) {
        AppAction::Seek(d) => assert_eq!(d, -10),
        other => panic!("unexpected {other:?}"),
    }
    assert_eq!(s.toast_message.as_deref(), Some("<< 10s"));
    s.seek_streak = 30;
    match handle_key(&mut s, key(KeyCode::Left)) {
        AppAction::Seek(d) => assert_eq!(d, -60),
        other => panic!("unexpected {other:?}"),
    }
    assert_eq!(s.toast_message.as_deref(), Some("<< 1m"));
    // A pause of 15 frames restarts the streak.
    s.frame_count += 15;
    match handle_key(&mut s, key(KeyCode::Right)) {
        AppAction::Seek(d) => assert_eq!(d, 5),
        other => panic!("unexpected {other:?}"),
    }
    assert_eq!(s.seek_streak, 1);
}

#[test]
fn arrows_do_not_seek_when_stopped() {
    let mut s = AppState::default();
    s.focus = Focus::Center;
    assert!(matches!(handle_key(&mut s, key(KeyCode::Left)), AppAction::NoOp));
}

#[test]
fn playback_keys_map_to_actions() {
    let mut s = AppState::default();
    assert!(matches!(handle_key(&mut s, ch(' ')), AppAction::TogglePause));
    assert!(matches!(handle_key(&mut s, ch('+')), AppAction::VolumeUp));
    assert!(matches!(handle_key(&mut s, ch('=')), AppAction::VolumeUp));
    assert!(matches!(handle_key(&mut s, ch('-')), AppAction::VolumeDown));
    assert!(matches!(handle_key(&mut s, ch('n')), AppAction::NextTrack));
    assert!(matches!(handle_key(&mut s, ch('p')), AppAction::PrevTrack));
    assert!(matches!(handle_key(&mut s, ch('t')), AppAction::CycleTheme));
    assert!(matches!(handle_key(&mut s, ch('e')), AppAction::CycleEq));
}

#[test]
fn popup_collects_a_name() {
    let mut s = AppState::default();
    s.popup_input = "old".to_string();
    assert!(matches!(handle_key(&mut s, ch('a')), AppAction::AddToPlaylist));
    assert!(s.show_playlist_popup);
    assert_eq!(s.popup_input, "");
    for c in "Mix".chars() {
        handle_key(&mut s, ch(c));
    }
    // 'q' is text while the popup is open.
    handle_key(&mut s, ch('q'));
    handle_key(&mut s, key(KeyCode::Backspace));
    match handle_key(&mut s, key(KeyCode::Enter)) {
        AppAction::CreatePlaylist(name, desc) => {
            assert_eq!(name, "Mix");
            assert_eq!(desc, "");
        }
        other => panic!("unexpected {other:?}"),
    }
    assert!(!s.show_playlist_popup);
}

#[test]
fn popup_escape_and_empty_enter() {
    let mut s = AppState::default();
    handle_key(&mut s, ch('a'));
    assert!(matches!(handle_key(&mut s, key(KeyCode::Enter)), AppAction::NoOp));
    assert!(!s.show_playlist_popup);
    handle_key(&mut s, ch('a'));
    handle_key(&mut s, key(KeyCode::Esc));
    assert!(!s.show_playlist_popup);
}

#[test]
fn navigation_walks_sections_and_playlists() {
    let mut s = AppState::default();
    s.playlists = vec![playlist(7, "A"), playlist(9, "B")];
    handle_key(&mut s, ch('j'));
    assert_eq!(s.nav_section, NavSection::Playlists);
    assert_eq!(s.nav_sub_index, 0);
    handle_key(&mut s, key(KeyCode::Down));
    assert_eq!(s.nav_sub_index, 1);
    handle_key(&mut s, ch('j'));
    assert_eq!(s.nav_section, NavSection::History);
    handle_key(&mut s, ch('k'));
    assert_eq!(s.nav_section, NavSection::Playlists);
    assert_eq!(s.nav_sub_index, 1);
    match handle_key(&mut s, key(KeyCode::Enter)) {
        AppAction::LoadPlaylistTracks(id) => assert_eq!(id, 9),
        other => panic!("unexpected {other:?}"),
    }
    assert_eq!(s.content_view, ContentView::PlaylistTracks(9));
    assert_eq!(s.focus, Focus::Queue);
}

#[test]
fn navigation_wraps_around() {
    let mut s = AppState::default();
    handle_key(&mut s, ch('k'));
    assert_eq!(s.nav_section, NavSection::Settings);
    handle_key(&mut s, ch('j'));
    assert_eq!(s.nav_section, NavSection::Search);
}

#[test]
fn opening_playlists_without_any() {
    let mut s = AppState::default();
    s.nav_section = NavSection::Playlists;
    s.search_results = vec![track("a")];
    s.queue = vec![track("a")];
    s.content_index = 1;
    assert!(matches!(handle_key(&mut s, key(KeyCode::Enter)), AppAction::LoadPlaylists));
    assert!(s.search_results.is_empty());
    assert!(s.queue.is_empty());
    assert_eq!(s.content_index, 0);
    assert_eq!(s.toast_timer, 60);
    assert_eq!(
        s.toast_message.as_deref(),
        Some("No playlists yet — play a track and press 'a' to create one")
    );
}

#[test]
fn opening_history_and_settings() {
    let mut s = AppState::default();
    s.nav_section = NavSection::History;
    assert!(matches!(handle_key(&mut s, key(KeyCode::Enter)), AppAction::LoadHistory));
    assert_eq!(s.content_view, ContentView::HistoryList);
    s.focus = Focus::Navigation;
    s.nav_section = NavSection::Settings;
    s.settings_index = 0;
    handle_key(&mut s, key(KeyCode::Enter));
    assert_eq!(s.content_view, ContentView::Settings);
    assert_eq!(s.focus, Focus::Queue);
    handle_key(&mut s, ch('j'));
    assert_eq!(s.settings_index, 0);
    match handle_key(&mut s, ch(' ')) {
        AppAction::TogglePause => {}
        other => panic!("space is a global binding first, got {other:?}"),
    }
    match handle_key(&mut s, key(KeyCode::Enter)) {
        AppAction::ToggleSetting(i) => assert_eq!(i, 0),
        other => panic!("unexpected {other:?}"),
    }
}

#[test]
fn result_list_navigation_is_clamped() {
    let mut s = AppState::default();
    s.focus = Focus::Queue;
    s.content_view = ContentView::SearchResults;
    s.search_results = vec![track("a"), track("b")];
    handle_key(&mut s, ch('j'));
    assert_eq!(s.content_index, 1);
    handle_key(&mut s, ch('j'));
    assert_eq!(s.content_index, 1);
    match handle_key(&mut s, key(KeyCode::Enter)) {
        AppAction::PlayTrackIndex(i) => assert_eq!(i, 1),
        other => panic!("unexpected {other:?}"),
    }
    handle_key(&mut s, ch('k'));
    handle_key(&mut s, ch('k'));
    assert_eq!(s.content_index, 0);
    s.search_results.clear();
    assert!(matches!(handle_key(&mut s, key(KeyCode::Enter)), AppAction::NoOp));
}

#[test]
fn nav_down_then_up_returns_on_every_section() {
    for start in 0..4 {
        let mut s = AppState::default();
        s.playlists = vec![playlist(1, "a"), playlist(2, "b")];
        for _ in 0..start {
            handle_key(&mut s, key(KeyCode::Down));
        }
        let (section, sub) = (s.nav_section, s.nav_sub_index);
        assert!(matches!(handle_key(&mut s, key(KeyCode::Down)), AppAction::NoOp));
        assert!(matches!(handle_key(&mut s, key(KeyCode::Up)), AppAction::NoOp));
        assert_eq!((s.nav_section, s.nav_sub_index), (section, sub));
        handle_key(&mut s, key(KeyCode::Up));
        handle_key(&mut s, key(KeyCode::Down));
        assert_eq!((s.nav_section, s.nav_sub_index), (section, sub));
    }
}

#[test]
fn nav_up_from_history_lands_on_last_playlist_and_back() {
    let mut s = AppState::default();
    s.playlists = vec![playlist(1, "a"), playlist(2, "b"), playlist(3, "c")];
    s.nav_section = NavSection::History;
    handle_key(&mut s, key(KeyCode::Up));
    assert_eq!((s.nav_section, s.nav_sub_index), (NavSection::Playlists, 2));
    handle_key(&mut s, key(KeyCode::Down));
    assert_eq!((s.nav_section, s.nav_sub_index), (NavSection::History, 0));
}

#[test]
fn queue_panel_keys_move_play_and_ignore() {
    let mut s = AppState::default();
    s.focus = Focus::Queue;
    s.content_view = ContentView::SearchResults;
    s.search_results = vec![track("a"), track("b"), track("c")];
    s.content_index = 1;
    assert!(matches!(handle_key(&mut s, ch('j')), AppAction::NoOp));
    assert_eq!(s.content_index, 2);
    assert!(matches!(handle_key(&mut s, key(KeyCode::Down)), AppAction::NoOp));
    assert_eq!(s.content_index, 2);
    assert!(matches!(handle_key(&mut s, key(KeyCode::Enter)), AppAction::PlayTrackIndex(2)));
    assert_eq!(s.content_index, 2);
    assert!(matches!(handle_key(&mut s, ch('x')), AppAction::NoOp));
    assert_eq!(s.content_index, 2);
    handle_key(&mut s, ch('k'));
    handle_key(&mut s, key(KeyCode::Up));
    handle_key(&mut s, key(KeyCode::Up));
    assert_eq!(s.content_index, 0);
}
