//! How messages from the mpv player change the playback state.
use vstd::prelude::*;
use crate::models::{PlayStatus, PlaybackState};
use crate::text::str_eq;

verus! {

/// The mpv events the player state follows.
#[derive(Debug, Clone, Copy, PartialEq, Eq, Structural)]
pub enum PlayerEvent {
    PlaybackRestart,
    Pause,
    Unpause,
    EndFile,
    Other,
}

/// The event that an mpv `event` name stands for.
pub open spec fn spec_player_event(name: Seq<char>) -> PlayerEvent {
    if name == "playback-restart"@ {
        PlayerEvent::PlaybackRestart
    } else if name == "pause"@ {
        PlayerEvent::Pause
    } else if name == "unpause"@ {
        PlayerEvent::Unpause
    } else if name == "end-file"@ {
        PlayerEvent::EndFile
    } else {
        PlayerEvent::Other
    }
}

/// Classifies an mpv `event` name.
pub fn player_event(name: &str) -> (r: PlayerEvent)
    ensures
        r == spec_player_event(name@),
{
    if str_eq(name, "playback-restart") {
        PlayerEvent::PlaybackRestart
    } else if str_eq(name, "pause") {
        PlayerEvent::Pause
    } else if str_eq(name, "unpause") {
        PlayerEvent::Unpause
    } else if str_eq(name, "end-file") {
        PlayerEvent::EndFile
    } else {
        PlayerEvent::Other
    }
}

/// The mpv properties whose changes the player state follows.
#[derive(Debug, Clone, Copy, PartialEq, Eq, Structural)]
pub enum ObservedProperty {
    PlaybackTime,
    Duration,
    Volume,
    SampleRate,
    ChannelCount,
    CodecName,
    Bitrate,
    Pause,
}

/// The observed property that an mpv property name stands for, if any.
pub open spec fn spec_observed_property(name: Seq<char>) -> Option<ObservedProperty> {
    if name == "playback-time"@ {
        Some(ObservedProperty::PlaybackTime)
    } else if name == "duration"@ {
        Some(ObservedProperty::Duration)
    } else if name == "volume"@ {
        Some(ObservedProperty::Volume)
    } else if name == "audio-params/samplerate"@ {
        Some(ObservedProperty::SampleRate)
    } else if name == "audio-params/channel-count"@ {
        Some(ObservedProperty::ChannelCount)
    } else if name == "audio-codec-name"@ {
        Some(ObservedProperty::CodecName)
    } else if name == "audio-bitrate"@ {
        Some(ObservedProperty::Bitrate)
    } else if name == "pause"@ {
        Some(ObservedProperty::Pause)
    } else {
        None
    }
}

/// Classifies the name in an mpv `property-change` message.
pub fn observed_property(name: &str) -> (r: Option<ObservedProperty>)
    ensures
        r == spec_observed_property(name@),
{
    if str_eq(name, "playback-time") {
        Some(ObservedProperty::PlaybackTime)
    } else if str_eq(name, "duration") {
        Some(ObservedProperty::Duration)
    } else if str_eq(name, "volume") {
        Some(ObservedProperty::Volume)
    } else if str_eq(name, "audio-params/samplerate") {
        Some(ObservedProperty::SampleRate)
    } else if str_eq(name, "audio-params/channel-count") {
        Some(ObservedProperty::ChannelCount)
    } else if str_eq(name, "audio-codec-name") {
        Some(ObservedProperty::CodecName)
    } else if str_eq(name, "audio-bitrate") {
        Some(ObservedProperty::Bitrate)
    } else if str_eq(name, "pause") {
        Some(ObservedProperty::Pause)
    } else {
        None
    }
}

/// A change of an observed mpv property, converted to the state's units.
#[derive(Debug)]
pub enum PropertyChange {
    /// `playback-time`, in milliseconds.
    PlaybackTime(u64),
    /// `duration`, in milliseconds.
    Duration(u64),
    /// `volume`, in percent.
    Volume(u32),
    /// `audio-params/samplerate`, in Hz.
    SampleRate(u32),
    /// `audio-params/channel-count`.
    ChannelCount(u32),
    /// `audio-codec-name`.
    CodecName(String),
    /// `audio-bitrate`, in kbps.
    Bitrate(u32),
    /// `pause`.
    Pause(bool),
}

impl PlaybackState {
    /// Follows an mpv event: playback (re)starting or resuming means
    /// playing, pausing means paused, the end of the file means stopped at 0.
    pub fn apply_event(&mut self, event: PlayerEvent)
        ensures
            *final(self) == (match event {
                PlayerEvent::PlaybackRestart | PlayerEvent::Unpause => PlaybackState {
                    status: PlayStatus::Playing,
                    ..*old(self)
                },
                PlayerEvent::Pause => PlaybackState { status: PlayStatus::Paused, ..*old(self) },
                PlayerEvent::EndFile => PlaybackState {
                    status: PlayStatus::Stopped,
                    position_ms: 0,
                    ..*old(self)
                },
                PlayerEvent::Other => *old(self),
            }),
    {
        match event {
            PlayerEvent::PlaybackRestart => {
                self.status = PlayStatus::Playing;
            },
            PlayerEvent::Pause => {
                self.status = PlayStatus::Paused;
            },
            PlayerEvent::Unpause => {
                self.status = PlayStatus::Playing;
            },
            PlayerEvent::EndFile => {
                self.status = PlayStatus::Stopped;
                self.position_ms = 0;
            },
            PlayerEvent::Other => {},
        }
    }

    /// Records an observed property. The `pause` property pauses, or
    /// resumes a paused player; it leaves other states alone.
    pub fn apply_property(&mut self, change: PropertyChange)
        ensures
            *final(self) == (match change {
                PropertyChange::PlaybackTime(ms) => PlaybackState { position_ms: ms, ..*old(self) },
                PropertyChange::Duration(ms) => PlaybackState { duration_ms: ms, ..*old(self) },
                PropertyChange::Volume(v) => PlaybackState { volume: v, ..*old(self) },
                PropertyChange::SampleRate(hz) => PlaybackState {
                    sample_rate: Some(hz),
                    ..*old(self)
                },
                PropertyChange::ChannelCount(n) => PlaybackState {
                    channels: Some(n),
                    ..*old(self)
                },
                PropertyChange::CodecName(c) => PlaybackState { codec: Some(c), ..*old(self) },
                PropertyChange::Bitrate(k) => PlaybackState { bitrate: Some(k), ..*old(self) },
                PropertyChange::Pause(p) => if p {
                    PlaybackState { status: PlayStatus::Paused, ..*old(self) }
                } else if old(self).status == PlayStatus::Paused {
                    PlaybackState { status: PlayStatus::Playing, ..*old(self) }
                } else {
                    *old(self)
                },
            }),
    {
        match change {
            PropertyChange::PlaybackTime(ms) => {
                self.position_ms = ms;
            },
            PropertyChange::Duration(ms) => {
                self.duration_ms = ms;
            },
            PropertyChange::Volume(v) => {
                self.volume = v;
            },
            PropertyChange::SampleRate(hz) => {
                self.sample_rate = Some(hz);
            },
            PropertyChange::ChannelCount(n) => {
                self.channels = Some(n);
            },
            PropertyChange::CodecName(c) => {
                self.codec = Some(c);
            },
            PropertyChange::Bitrate(k) => {
                self.bitrate = Some(k);
            },
            PropertyChange::Pause(p) => {
                if p {
                    self.status = PlayStatus::Paused;
                } else if self.status == PlayStatus::Paused {
                    self.status = PlayStatus::Playing;
                }
            },
        }
    }
}

} // verus!
