//! Tracks, playlists and the playback status that the player reports.
use vstd::prelude::*;
use crate::text::{push_char, push_decimal, decimal};

verus! {

/// A YouTube track. Durations are held in whole milliseconds.
#[derive(Debug)]
pub struct Track {
    pub id: Option<i64>,
    pub youtube_id: String,
    pub title: String,
    pub artist: String,
    pub duration_ms: u64,
    pub thumbnail_url: String,
    pub youtube_url: String,
    pub codec: Option<String>,
    pub bitrate: Option<u32>,
    pub sample_rate: Option<u32>,
    pub channels: Option<u32>,
    pub filesize: Option<u64>,
    pub description: Option<String>,
}

/// A copy of an optional string.
pub fn clone_opt_string(s: &Option<String>) -> (r: Option<String>)
    ensures
        r == *s,
{
    match s {
        Some(x) => Some(x.clone()),
        None => None,
    }
}

impl Clone for Track {
    fn clone(&self) -> (r: Self)
        ensures
            r == *self,
    {
        Track {
            id: self.id,
            youtube_id: self.youtube_id.clone(),
            title: self.title.clone(),
            artist: self.artist.clone(),
            duration_ms: self.duration_ms,
            thumbnail_url: self.thumbnail_url.clone(),
            youtube_url: self.youtube_url.clone(),
            codec: clone_opt_string(&self.codec),
            bitrate: self.bitrate,
            sample_rate: self.sample_rate,
            channels: self.channels,
            filesize: self.filesize,
            description: clone_opt_string(&self.description),
        }
    }
}

/// `m:ss` for a duration of `secs` seconds: minutes without padding, seconds in two digits.
pub open spec fn minutes_seconds(secs: nat) -> Seq<char> {
    let m = secs / 60;
    let s = secs % 60;
    decimal(m) + seq![':'] + (if s < 10 {
        seq!['0']
    } else {
        Seq::empty()
    }) + decimal(s)
}

impl Track {
    /// The duration as `m:ss` (whole seconds, rounded down).
    pub fn duration_display(&self) -> (r: String)
        ensures
            r@ == minutes_seconds((self.duration_ms / 1000) as nat),
    {
        let total = self.duration_ms / 1000;
        let mins = total / 60;
        let secs = total % 60;
        let mut s = String::new();
        push_decimal(&mut s, mins);
        push_char(&mut s, ':');
        if secs < 10 {
            push_char(&mut s, '0');
        }
        push_decimal(&mut s, secs);
        s
    }
}

/// A user playlist.
#[derive(Debug)]
pub struct Playlist {
    pub id: Option<i64>,
    pub name: String,
    pub description: String,
    pub category_id: Option<i64>,
}

impl Clone for Playlist {
    fn clone(&self) -> (r: Self)
        ensures
            r == *self,
    {
        Playlist {
            id: self.id,
            name: self.name.clone(),
            description: self.description.clone(),
            category_id: self.category_id,
        }
    }
}

/// What the player is doing.
#[derive(Debug, Clone, Copy, PartialEq, Eq, Structural)]
pub enum PlayStatus {
    Stopped,
    Playing,
    Paused,
    Buffering,
}

/// The player's state as the app sees it. Times are whole milliseconds and
/// the volume is a percentage.
#[derive(Debug)]
pub struct PlaybackState {
    pub status: PlayStatus,
    pub position_ms: u64,
    pub duration_ms: u64,
    pub volume: u32,
    pub current_track: Option<Track>,
    pub codec: Option<String>,
    pub bitrate: Option<u32>,
    pub sample_rate: Option<u32>,
    pub channels: Option<u32>,
}

impl Default for PlaybackState {
    /// Stopped, at the start, at full (100%) volume, with nothing loaded.
    fn default() -> (r: Self)
        ensures
            r.status == PlayStatus::Stopped,
            r.position_ms == 0,
            r.duration_ms == 0,
            r.volume == 100,
            r.current_track is None,
            r.codec is None,
            r.bitrate is None,
            r.sample_rate is None,
            r.channels is None,
    {
        PlaybackState {
            status: PlayStatus::Stopped,
            position_ms: 0,
            duration_ms: 0,
            volume: 100,
            current_track: None,
            codec: None,
            bitrate: None,
            sample_rate: None,
            channels: None,
        }
    }
}

} // verus!
