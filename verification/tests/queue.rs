use groovebox::models::{PlayStatus, PlaybackState, Playlist, Track};
use groovebox::queue::{
    is_completed_play, merge_metadata, pause_request, volume_down, volume_up, AutoNext,
    PreviewUpdate,
};
use groovebox::state::{AppState, RepeatMode};

fn track(id: &str) -> Track {
    Track {
        id: None,
        youtube_id: id.to_string(),
        title: format!("Title {id}"),
        artist: "Artist".to_string(),
        duration_ms: 1000,
        thumbnail_url: String::new(),
        youtube_url: String::new(),
        codec: None,
        bitrate: None,
        sample_rate: None,
        channels: None,
        filesize: None,
        description: None,
    }
}

fn queue_of(n: usize) -> AppState {
    let mut s = AppState::default();
    s.queue = (0..n).map(|i| track(&i.to_string())).collect();
    s
}

#[test]
fn next_walks_the_queue_and_stops_at_the_end() {
    let mut s = queue_of(3);
    assert_eq!(s.next_track_index(0), Some(0));
    s.queue_index = Some(0);
    assert_eq!(s.next_track_index(0), Some(1));
    s.queue_index = Some(2);
    assert_eq!(s.next_track_index(0), None);
    s.repeat = RepeatMode::All;
    assert_eq!(s.next_track_index(0), Some(0));
}

#[test]
fn shuffle_uses_the_seed() {
    let mut s = queue_of(4);
    s.shuffle = true;
    assert_eq!(s.next_track_index(10), Some(2));
    let empty = queue_of(0);
    assert_eq!(empty.next_track_index(10), None);
}

#[test]
fn previous_wraps_only_under_repeat_all() {
    let mut s = queue_of(3);
    assert_eq!(s.prev_track_index(), Some(0));
    s.queue_index = Some(2);
    assert_eq!(s.prev_track_index(), Some(1));
    s.queue_index = Some(0);
    assert_eq!(s.prev_track_index(), Some(0));
    s.repeat = RepeatMode::All;
    assert_eq!(s.prev_track_index(), Some(2));
}

#[test]
fn next_then_previous_returns_under_repeat_all() {
    let mut s = queue_of(3);
    s.repeat = RepeatMode::All;
    for i in 0..3 {
        s.queue_index = Some(i);
        let n = s.next_track_index(0).unwrap();
        s.queue_index = Some(n);
        assert_eq!(s.prev_track_index(), Some(i));
    }
}

#[test]
fn auto_next_follows_repeat_mode() {
    let mut s = queue_of(2);
    assert_eq!(s.auto_next_step(), AutoNext::Stay);
    s.queue_index = Some(0);
    assert_eq!(s.auto_next_step(), AutoNext::Advance);
    s.queue_index = Some(1);
    assert_eq!(s.auto_next_step(), AutoNext::Stay);
    s.repeat = RepeatMode::One;
    assert_eq!(s.auto_next_step(), AutoNext::Replay(1));
    s.repeat = RepeatMode::All;
    assert_eq!(s.auto_next_step(), AutoNext::Advance);
    s.playback.status = PlayStatus::Playing;
    assert_eq!(s.auto_next_step(), AutoNext::Stay);
}

#[test]
fn starting_a_track_prefers_the_queue() {
    let mut s = queue_of(1);
    s.search_results = vec![track("x"), track("y")];
    let t = s.start_track(0).unwrap();
    assert_eq!(t.youtube_id, "0");
    let t = s.start_track(1).unwrap();
    assert_eq!(t.youtube_id, "y");
    assert_eq!(s.queue_index, Some(1));
    assert_eq!(s.playback.status, PlayStatus::Buffering);
    assert_eq!(s.playback.current_track.as_ref().unwrap().youtube_id, "y");
    assert_eq!(s.toast_message.as_deref(), Some("Loading: Title y"));
    assert_eq!(s.toast_timer, 60);
    assert!(s.start_track(2).is_none());
    assert_eq!(s.queue_index, Some(1));
}

#[test]
fn search_results_become_the_queue() {
    let mut s = AppState::default();
    s.content_index = 4;
    s.last_preview_index = Some(4);
    s.apply_search_results(vec![track("a"), track("b")]);
    assert_eq!(s.queue.len(), 2);
    assert_eq!(s.search_results.len(), 2);
    assert_eq!(s.queue[1].youtube_id, "b");
    assert_eq!(s.content_index, 0);
    assert_eq!(s.last_preview_index, None);
}

#[test]
fn toast_expires() {
    let mut s = AppState::default();
    s.show_toast("hi".to_string(), 2);
    s.tick_toast();
    assert_eq!(s.toast_message.as_deref(), Some("hi"));
    s.tick_toast();
    assert_eq!(s.toast_message, None);
    assert_eq!(s.toast_timer, 0);
    s.tick_toast();
    assert_eq!(s.toast_timer, 0);
}

#[test]
fn preview_follows_the_highlight() {
    let mut s = AppState::default();
    assert!(matches!(s.refresh_preview(), PreviewUpdate::Unchanged));
    s.search_results = vec![track("a"), track("b")];
    match s.refresh_preview() {
        PreviewUpdate::Moved(Some(t)) => assert_eq!(t.youtube_id, "a"),
        other => panic!("unexpected {other:?}"),
    }
    assert!(matches!(s.refresh_preview(), PreviewUpdate::Unchanged));
    s.content_index = 1;
    s.playback.current_track = Some(track("z"));
    assert!(matches!(s.refresh_preview(), PreviewUpdate::Moved(None)));
    assert_eq!(s.preview_track.as_ref().unwrap().youtube_id, "b");
    s.search_results.clear();
    assert!(matches!(s.refresh_preview(), PreviewUpdate::Cleared));
    assert!(s.preview_track.is_none());
}

#[test]
fn player_updates_keep_the_current_track() {
    let mut s = AppState::default();
    s.playback.current_track = Some(track("a"));
    let mut update = PlaybackState::default();
    update.status = PlayStatus::Playing;
    update.position_ms = 1234;
    s.apply_player_update(update);
    assert_eq!(s.playback.status, PlayStatus::Playing);
    assert_eq!(s.playback.position_ms, 1234);
    assert_eq!(s.playback.current_track.as_ref().unwrap().youtube_id, "a");
}

#[test]
fn failed_load_stops_with_a_toast() {
    let mut s = AppState::default();
    s.playback.status = PlayStatus::Buffering;
    s.fail_loading("boom");
    assert_eq!(s.playback.status, PlayStatus::Stopped);
    assert_eq!(s.toast_message.as_deref(), Some("URL error: boom"));
    assert_eq!(s.toast_timer, 60);
}

#[test]
fn playlist_prompts_and_creation() {
    let mut s = AppState::default();
    s.note_add_to_playlist();
    assert_eq!(s.toast_message.as_deref(), Some("Create a playlist first"));
    assert_eq!(s.toast_timer, 40);
    let lists = vec![Playlist { id: Some(3), name: "Mix".into(), description: String::new(), category_id: None }];
    s.playlist_created("Mix", lists);
    assert_eq!(s.toast_message.as_deref(), Some("Created: Mix"));
    assert_eq!(s.playlist_for_current_track(), None);
    s.playback.current_track = Some(track("a"));
    assert_eq!(s.playlist_for_current_track(), Some(3));
    s.toast_message = None;
    s.note_add_to_playlist();
    assert_eq!(s.toast_message, None);
}

#[test]
fn settings_toggle_by_index() {
    let mut s = AppState::default();
    assert!(s.preferences.auto_resume);
    s.toggle_setting(0);
    assert!(!s.preferences.auto_resume);
    s.toggle_setting(5);
    assert!(!s.preferences.auto_resume);
}

#[test]
fn volume_steps_are_clamped() {
    assert_eq!(volume_up(100), 105);
    assert_eq!(volume_up(148), 150);
    assert_eq!(volume_down(3), 0);
    assert_eq!(volume_down(100), 95);
}

#[test]
fn pause_toggles_only_while_playing_or_paused() {
    assert_eq!(pause_request(PlayStatus::Playing), Some(true));
    assert_eq!(pause_request(PlayStatus::Paused), Some(false));
    assert_eq!(pause_request(PlayStatus::Stopped), None);
    assert_eq!(pause_request(PlayStatus::Buffering), None);
}

#[test]
fn completion_needs_ninety_percent() {
    assert!(is_completed_play(90_000, 100_000));
    assert!(!is_completed_play(89_999, 100_000));
    assert!(!is_completed_play(10, 0));
}

#[test]
fn metadata_fills_in_stream_details() {
    let mut cur = track("a");
    cur.codec = Some("mp3".into());
    cur.bitrate = Some(128);
    let mut full = track("a");
    full.codec = Some("opus".into());
    full.sample_rate = Some(48000);
    full.filesize = Some(99);
    merge_metadata(&mut cur, &full);
    assert_eq!(cur.codec.as_deref(), Some("opus"));
    assert_eq!(cur.bitrate, Some(128));
    assert_eq!(cur.sample_rate, Some(48000));
    assert_eq!(cur.filesize, Some(99));
    assert_eq!(cur.channels, None);
}

#[test]
fn finished_search_applies_results_or_reports_the_error() {
    let mut s = AppState::default();
    s.searching = true;
    s.content_index = 4;
    s.finish_search(Ok(vec![track("a"), track("b")]));
    assert!(!s.searching);
    assert_eq!(s.search_results.len(), 2);
    assert_eq!(s.queue.len(), 2);
    assert_eq!(s.content_index, 0);
    assert!(s.toast_message.is_none());

    s.searching = true;
    s.finish_search(Err("yt-dlp failed".to_string()));
    assert!(!s.searching);
    assert_eq!(s.search_results.len(), 2);
    assert_eq!(s.toast_message.as_deref(), Some("Search error: yt-dlp failed"));
    assert_eq!(s.toast_timer, 60);
}

#[test]
fn playing_card_is_the_current_queue_entry() {
    let mut s = AppState::default();
    s.queue = vec![track("a"), track("b")];
    assert!(!s.is_playing_card(1, "b"));
    s.start_track(1);
    assert!(s.is_playing_card(1, "b"));
    assert!(!s.is_playing_card(0, "b"));
    assert!(!s.is_playing_card(1, "a"));
}
