use groovebox::audio::{bound_capture_buffer, is_capture_device, keep_latest, FFT_SIZE};
use groovebox::sql::{
    history_tracks_sql, insert_track_sql, playlist_tracks_sql, track_by_id_sql, track_columns,
};
use groovebox::state::{EqStyle, Preferences};
use groovebox::text::{contains_str, is_whitespace_char, str_eq};
use groovebox::theme::{self, ThemeIndex};
use groovebox::thumbnail::{
    cache_dir_in, hires_candidates, hires_thumbnail_file_name, hires_thumbnail_path, is_real_thumbnail,
    thumbnail_file_name, thumbnail_path,
};
use groovebox::view::{
    bar_layout, bitrate_label, bounce_segment, channel_label, format_relative_time, format_time,
    scroll_offset, thumbnail_height, toast_span, truncate_title, visible_cards,
};

#[test]
fn whitespace_matches_std_for_every_char() {
    for u in 0u32..=0x10FFFF {
        if let Some(c) = char::from_u32(u) {
            assert_eq!(is_whitespace_char(c), c.is_whitespace(), "U+{u:04X}");
        }
    }
}

#[test]
fn eq_styles_cycle() {
    let mut s = EqStyle::Bars;
    let mut labels = Vec::new();
    for _ in 0..5 {
        labels.push(s.label());
        s = s.next();
    }
    assert_eq!(s, EqStyle::Bars);
    assert_eq!(labels, vec!["Bars", "Blocks", "Peaks", "Mirror", "Wave"]);
    assert_eq!(EqStyle::all()[4], EqStyle::Wave);
}

#[test]
fn preferences_by_key() {
    let mut p = Preferences::default();
    assert!(p.get("auto_resume"));
    assert!(!p.get("other"));
    p.toggle("auto_resume");
    assert!(!p.get("auto_resume"));
    p.toggle("other");
    assert!(!p.auto_resume);
    let keys = Preferences::keys();
    assert_eq!(keys, vec![("auto_resume", "Resume playback on startup")]);
}

#[test]
fn themes_cycle_and_wrap() {
    let mut t = ThemeIndex::first();
    assert_eq!(theme::current_name(&t), "Catppuccin Mocha");
    assert_eq!(theme::theme_count(), 5);
    theme::set_theme(&mut t, 7);
    assert_eq!(theme::current_index(&t), 2);
    assert_eq!(theme::current_name(&t), "Dracula");
    theme::set_theme(&mut t, 4);
    theme::cycle_theme(&mut t);
    assert_eq!(theme::current_index(&t), 0);
    assert_eq!(theme::names()[3], "Gruvbox Dark");
}

#[test]
fn track_sql() {
    assert_eq!(
        track_columns(""),
        "id, youtube_id, title, artist, duration, thumbnail_url, youtube_url, codec, bitrate, sample_rate, channels, filesize, description"
    );
    assert!(track_columns("t").starts_with("t.id, t.youtube_id, t.title"));
    assert_eq!(
        insert_track_sql(),
        "INSERT OR IGNORE INTO tracks (youtube_id, title, artist, duration, thumbnail_url, youtube_url, codec, bitrate, sample_rate, channels, filesize, description) VALUES (?1, ?2, ?3, ?4, ?5, ?6, ?7, ?8, ?9, ?10, ?11, ?12)"
    );
    assert!(track_by_id_sql().ends_with("FROM tracks WHERE id = ?1"));
    assert!(history_tracks_sql().contains("JOIN play_history h ON t.id = h.track_id"));
    assert!(playlist_tracks_sql().ends_with("ORDER BY pt.position"));
}

#[test]
fn cache_dir_prefers_the_user_cache() {
    let home = std::path::PathBuf::from("/home/u/.cache");
    assert_eq!(
        cache_dir_in(Some(home)),
        std::path::PathBuf::from("/home/u/.cache/groovebox/thumbs")
    );
    assert_eq!(cache_dir_in(None), std::path::PathBuf::from("/tmp/groovebox/thumbs"));
}

#[test]
fn thumbnail_names_and_candidates() {
    assert_eq!(thumbnail_file_name("abc"), "abc.jpg");
    assert_eq!(hires_thumbnail_file_name("abc"), "abc_hires.jpg");
    assert!(thumbnail_path("abc").ends_with("groovebox/thumbs/abc.jpg"));
    assert!(hires_thumbnail_path("abc").ends_with("groovebox/thumbs/abc_hires.jpg"));
    assert_eq!(
        hires_candidates("abc"),
        vec![
            "https://i.ytimg.com/vi/abc/maxresdefault.jpg".to_string(),
            "https://i.ytimg.com/vi/abc/sddefault.jpg".to_string(),
            "https://i.ytimg.com/vi/abc/hqdefault.jpg".to_string(),
        ]
    );
    assert!(is_real_thumbnail(2001));
    assert!(!is_real_thumbnail(2000));
}

#[test]
fn equalizer_bar_layout() {
    assert_eq!(bar_layout(0), (1, 2, 1, 3, 0));
    assert_eq!(bar_layout(10), (3, 2, 1, 3, 1));
    assert_eq!(bar_layout(11), (4, 2, 1, 3, 0));
}

#[test]
fn time_labels() {
    assert_eq!(format_time(0), "00:00");
    assert_eq!(format_time(187), "03:07");
    assert_eq!(format_time(6000), "100:00");
    assert_eq!(format_relative_time(-5), "now");
    assert_eq!(format_relative_time(59), "now");
    assert_eq!(format_relative_time(60), "1m");
    assert_eq!(format_relative_time(3599), "59m");
    assert_eq!(format_relative_time(7200), "2h");
    assert_eq!(format_relative_time(3 * 86400 + 5), "3d");
}

#[test]
fn titles_are_truncated_by_characters() {
    assert_eq!(truncate_title("short", 10), "short");
    assert_eq!(truncate_title("abcdefghij", 8), "abcde...");
    assert_eq!(truncate_title("ééééé", 4), "é...");
    assert_eq!(truncate_title("abcdef", 3), "abcdef");
}

#[test]
fn scrolling_and_cards() {
    assert_eq!(scroll_offset(3, 5), 0);
    assert_eq!(scroll_offset(7, 5), 3);
    assert_eq!(visible_cards(24), 4);
}

#[test]
fn loading_animation_bounces() {
    assert_eq!(bounce_segment(0, 10), (0, 4));
    assert_eq!(bounce_segment(5, 10), (3, 7));
    assert_eq!(bounce_segment(10, 10), (8, 10));
    assert_eq!(bounce_segment(15, 10), (3, 7));
    assert_eq!(bounce_segment(7, 3), (0, 3));
}

#[test]
fn panel_geometry() {
    assert_eq!(thumbnail_height(true, 30), 12);
    assert_eq!(thumbnail_height(true, 16), 8);
    assert_eq!(thumbnail_height(true, 12), 5);
    assert_eq!(thumbnail_height(true, 11), 0);
    assert_eq!(thumbnail_height(false, 30), 0);
    assert_eq!(toast_span(6, 80), (69, 10));
    assert_eq!(toast_span(100, 20), (0, 20));
}

#[test]
fn stream_labels() {
    assert_eq!(channel_label(1), "mono");
    assert_eq!(channel_label(2), "stereo");
    assert_eq!(channel_label(6), "6ch");
    assert_eq!(bitrate_label(128), "128 kbps");
}

#[test]
fn str_eq_compares_characters() {
    assert!(str_eq("abc", "abc"));
    assert!(!str_eq("abc", "abd"));
    assert!(!str_eq("ab", "abc"));
}

/// Mixes interleaved stereo frames down to mono and appends them to the
/// capture buffer, as the audio callback does.
fn push_stereo_to_buffer(buf: &mut Vec<f32>, stereo_data: &[f32]) {
    for chunk in stereo_data.chunks(2) {
        let mono: f32 = chunk.iter().sum::<f32>() / 2.0;
        buf.push(mono);
    }
    bound_capture_buffer(buf);
}

#[test]
fn test_full_pipeline_buffer_bounding() {
    let mut buf = Vec::new();
    let huge: Vec<f32> = (0..FFT_SIZE * 10)
        .flat_map(|i| {
            let s = (2.0 * std::f32::consts::PI * 440.0 * i as f32 / 48000.0).sin();
            [s, s]
        })
        .collect();
    push_stereo_to_buffer(&mut buf, &huge);
    assert!(buf.len() <= FFT_SIZE, "Buffer should be bounded to FFT_SIZE, got {}", buf.len());
}

#[test]
fn keep_latest_keeps_the_tail() {
    let mut v: Vec<u32> = (0..10).collect();
    keep_latest(&mut v, 3);
    assert_eq!(v, vec![7, 8, 9]);
    keep_latest(&mut v, 5);
    assert_eq!(v, vec![7, 8, 9]);
}

#[test]
fn capture_devices_are_monitors_or_the_default_sink() {
    assert!(is_capture_device("alsa_output.pci.analog-stereo.monitor"));
    assert!(is_capture_device("sink_default"));
    assert!(!is_capture_device("sink_default2"));
    assert!(!is_capture_device("Built-in Microphone"));
    assert!(contains_str("abc", ""));
    assert!(contains_str("abc", "bc"));
    assert!(!contains_str("ab", "abc"));
}
