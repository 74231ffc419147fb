use groovebox::player::{observed_property, player_event, ObservedProperty, PlayerEvent, PropertyChange};
use groovebox::models::{PlayStatus, PlaybackState, Track};
use groovebox::setup::{
    accepts_install, install_command, installable, is_yes_answer, probe_order,
    required_dependencies, PackageManager,
};
use groovebox::ytdlp::{
    audio_url_from_output, min_ytdlp_version, parse_ytdlp_version, search_term,
    track_from_metadata, track_from_search_result, ytdlp_needs_upgrade, ThumbnailEntry,
    YtDlpResult,
};

fn record() -> YtDlpResult {
    YtDlpResult {
        id: Some("abc123".into()),
        title: None,
        uploader: None,
        channel: Some("Chan".into()),
        duration_ms: Some(215_500),
        thumbnail: Some(String::new()),
        thumbnails: Some(vec![
            ThumbnailEntry { url: Some("small.jpg".into()), width: Some(120), height: Some(90) },
            ThumbnailEntry { url: Some("large.jpg".into()), width: Some(1280), height: Some(720) },
        ]),
        url: None,
        webpage_url: None,
        acodec: Some("opus".into()),
        abr: Some(129),
        asr: Some(48000),
        audio_channels: Some(2),
        filesize: None,
        filesize_approx: Some(4_000_000),
        description: Some("desc".into()),
    }
}

#[test]
fn search_records_become_tracks() {
    let t: Track = track_from_search_result(&record());
    assert_eq!(t.youtube_id, "abc123");
    assert_eq!(t.title, "Unknown");
    assert_eq!(t.artist, "Chan");
    assert_eq!(t.duration_ms, 215_500);
    assert_eq!(t.thumbnail_url, "large.jpg");
    assert_eq!(t.youtube_url, "https://www.youtube.com/watch?v=abc123");
    assert_eq!(t.codec, None);
    assert_eq!(t.filesize, None);
    assert_eq!(t.description.as_deref(), Some("desc"));
    assert_eq!(t.duration_display(), "3:35");
}

#[test]
fn metadata_records_keep_stream_details() {
    let mut r = record();
    r.uploader = Some("Up".into());
    r.title = Some("Song".into());
    r.thumbnail = Some("main.jpg".into());
    r.webpage_url = Some("https://example.test/v".into());
    let t = track_from_metadata(&r);
    assert_eq!(t.artist, "Up");
    assert_eq!(t.title, "Song");
    assert_eq!(t.thumbnail_url, "main.jpg");
    assert_eq!(t.youtube_url, "https://example.test/v");
    assert_eq!(t.codec.as_deref(), Some("opus"));
    assert_eq!(t.bitrate, Some(129));
    assert_eq!(t.sample_rate, Some(48000));
    assert_eq!(t.channels, Some(2));
    assert_eq!(t.filesize, Some(4_000_000));
}

#[test]
fn best_thumbnail_falls_back() {
    let mut r = record();
    r.thumbnails = Some(vec![ThumbnailEntry { url: None, width: None, height: None }]);
    assert_eq!(r.best_thumbnail(), "");
    r.thumbnails = None;
    assert_eq!(r.best_thumbnail(), "");
    r.thumbnail = Some("x".into());
    assert_eq!(r.best_thumbnail(), "x");
}

#[test]
fn search_term_format() {
    assert_eq!(search_term("daft punk", 10), "ytsearch10:daft punk");
}

#[test]
fn audio_url_is_trimmed_output() {
    assert_eq!(audio_url_from_output("  https://x/y \n").as_deref(), Some("https://x/y"));
    assert_eq!(audio_url_from_output(" \n\t"), None);
}

#[test]
fn ytdlp_versions_parse_like_from_str() {
    assert_eq!(parse_ytdlp_version("2026.08.18"), Some((2026, 8, 18)));
    assert_eq!(parse_ytdlp_version(" 2026.08.18.122307\n"), Some((2026, 8, 18)));
    assert_eq!(parse_ytdlp_version("+2026.+8.018"), Some((2026, 8, 18)));
    assert_eq!(parse_ytdlp_version("2026.08"), None);
    assert_eq!(parse_ytdlp_version("2026.08."), None);
    assert_eq!(parse_ytdlp_version("2026. 08.18"), None);
    assert_eq!(parse_ytdlp_version("99999999999.1.1"), None);
    assert_eq!(parse_ytdlp_version("4294967295.1.1"), Some((4294967295, 1, 1)));
    assert_eq!(parse_ytdlp_version(""), None);
}

#[test]
fn parse_u32_agrees_with_std() {
    for s in ["0", "+7", "-1", "", "+", "12a", "4294967296", "00042"] {
        let ours = parse_ytdlp_version(&format!("{s}.1.1")).map(|v| v.0);
        assert_eq!(ours, s.parse::<u32>().ok(), "{s}");
    }
}

#[test]
fn old_ytdlp_needs_upgrade() {
    assert_eq!(min_ytdlp_version(), (2026, 8, 18));
    assert!(ytdlp_needs_upgrade("2025.12.31"));
    assert!(ytdlp_needs_upgrade("2026.08.17"));
    assert!(!ytdlp_needs_upgrade("2026.08.18"));
    assert!(!ytdlp_needs_upgrade("2026.09.01.000001"));
    assert!(!ytdlp_needs_upgrade("garbage"));
}

#[test]
fn dependencies_and_install_commands() {
    assert_eq!(required_dependencies(), vec!["yt-dlp", "mpv", "ffmpeg"]);
    assert_eq!(installable(&vec!["yt-dlp", "ffmpeg"]), vec!["ffmpeg"]);
    assert!(installable(&vec!["yt-dlp"]).is_empty());
    assert_eq!(probe_order()[0], PackageManager::Brew);
    assert_eq!(install_command(PackageManager::Brew, "mpv ffmpeg"), "brew install mpv ffmpeg");
    assert_eq!(install_command(PackageManager::Apt, "mpv"), "sudo apt install -y mpv");
    assert_eq!(install_command(PackageManager::Dnf, "mpv"), "sudo dnf install -y mpv");
    assert_eq!(install_command(PackageManager::Pacman, "mpv"), "sudo pacman -S --noconfirm mpv");
}

#[test]
fn install_answers() {
    assert!(accepts_install("\n"));
    assert!(accepts_install(" Y \n"));
    assert!(accepts_install("YES"));
    assert!(!accepts_install("n"));
    assert!(!accepts_install("yeah"));
    assert!(is_yes_answer("yes"));
    assert!(!is_yes_answer("YES"));
}

#[test]
fn mpv_events_and_properties() {
    assert_eq!(player_event("end-file"), PlayerEvent::EndFile);
    assert_eq!(player_event("seek"), PlayerEvent::Other);
    let mut p = PlaybackState::default();
    p.apply_event(player_event("playback-restart"));
    assert_eq!(p.status, PlayStatus::Playing);
    p.apply_property(PropertyChange::PlaybackTime(5_000));
    p.apply_property(PropertyChange::Pause(true));
    assert_eq!(p.status, PlayStatus::Paused);
    p.apply_property(PropertyChange::Pause(false));
    assert_eq!(p.status, PlayStatus::Playing);
    p.apply_property(PropertyChange::CodecName("opus".into()));
    p.apply_property(PropertyChange::Bitrate(160));
    assert_eq!(p.codec.as_deref(), Some("opus"));
    assert_eq!(p.bitrate, Some(160));
    p.apply_event(PlayerEvent::EndFile);
    assert_eq!(p.status, PlayStatus::Stopped);
    assert_eq!(p.position_ms, 0);
    p.apply_property(PropertyChange::Pause(false));
    assert_eq!(p.status, PlayStatus::Stopped);
}

#[test]
fn observed_property_names() {
    assert_eq!(observed_property("playback-time"), Some(ObservedProperty::PlaybackTime));
    assert_eq!(observed_property("audio-params/channel-count"), Some(ObservedProperty::ChannelCount));
    assert_eq!(observed_property("pause"), Some(ObservedProperty::Pause));
    assert_eq!(observed_property("paused"), None);
}
