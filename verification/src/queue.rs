//! Play-queue decisions: which track comes next or before, what happens when
//! a track ends, and how starting a track and new results change the state.
use vstd::prelude::*;
use crate::models::{PlayStatus, PlaybackState, Track};
use crate::state::{AppState, Preferences, RepeatMode};
use crate::text::{concat, str_eq};

verus! {

/// The queue index that "next" plays, if any: with shuffle, `seed % len`;
/// otherwise the one after the current track, wrapping to the first under
/// Repeat All and stopping at the end otherwise; the first when no track is
/// current. Nothing for an empty queue.
pub open spec fn spec_next_index(
    len: nat,
    current: Option<usize>,
    shuffle: bool,
    repeat: RepeatMode,
    seed: nat,
) -> Option<nat> {
    if len == 0 {
        None
    } else if shuffle {
        Some(seed % len)
    } else {
        match current {
            Some(idx) => if idx + 1 >= len {
                if repeat == RepeatMode::All {
                    Some(0)
                } else {
                    None
                }
            } else {
                Some((idx + 1) as nat)
            },
            None => Some(0),
        }
    }
}

/// The queue index that "previous" plays, if any: the one before the current
/// track; from the first, the last under Repeat All and the first otherwise;
/// the first when no track is current. Nothing for an empty queue.
pub open spec fn spec_prev_index(len: nat, current: Option<usize>, repeat: RepeatMode) -> Option<
    nat,
> {
    if len == 0 {
        None
    } else {
        match current {
            Some(idx) => if idx == 0 {
                if repeat == RepeatMode::All {
                    Some((len - 1) as nat)
                } else {
                    Some(0)
                }
            } else {
                Some((idx - 1) as nat)
            },
            None => Some(0),
        }
    }
}

/// What to do when the current track has ended.
#[derive(Debug, Clone, Copy, PartialEq, Eq, Structural)]
pub enum AutoNext {
    /// Play the track at this queue index again.
    Replay(usize),
    /// Go on as "next" does.
    Advance,
    /// Do nothing.
    Stay,
}

/// Under Repeat One the current track plays again; under Repeat All the
/// queue advances; with repeat off it advances only while tracks remain.
pub open spec fn spec_auto_next(repeat: RepeatMode, current: Option<usize>, len: nat) -> AutoNext {
    match repeat {
        RepeatMode::One => match current {
            Some(idx) => AutoNext::Replay(idx),
            None => AutoNext::Stay,
        },
        RepeatMode::All => AutoNext::Advance,
        RepeatMode::Off => match current {
            Some(idx) => if idx + 1 < len {
                AutoNext::Advance
            } else {
                AutoNext::Stay
            },
            None => AutoNext::Stay,
        },
    }
}

/// The toast shown while a track loads.
pub open spec fn loading_toast(title: Seq<char>) -> Seq<char> {
    "Loading: "@ + title
}

/// The toast shown once a track plays.
pub open spec fn playing_toast(title: Seq<char>) -> Seq<char> {
    "Playing: "@ + title
}

/// The toast shown when a track's audio URL could not be had.
pub open spec fn url_error_toast(error: Seq<char>) -> Seq<char> {
    "URL error: "@ + error
}

/// The toast shown when a search failed.
pub open spec fn search_error_toast(error: Seq<char>) -> Seq<char> {
    "Search error: "@ + error
}

/// Whether a play of `position_ms` of a `duration_ms` track counts as
/// completed: at least 90% of a known duration was heard.
pub open spec fn spec_completed(position_ms: u64, duration_ms: u64) -> bool {
    duration_ms > 0 && position_ms * 10 >= duration_ms * 9
}

/// Whether a play counts as completed (at least 90% of a known duration).
pub fn is_completed_play(position_ms: u64, duration_ms: u64) -> (r: bool)
    ensures
        r == spec_completed(position_ms, duration_ms),
{
    duration_ms > 0 && (position_ms as u128) * 10 >= (duration_ms as u128) * 9
}

/// Volume after "volume up": five points more, at most 150.
pub open spec fn spec_volume_up(volume: u32) -> u32 {
    if volume + 5 <= 150 {
        (volume + 5) as u32
    } else {
        150
    }
}

/// Volume after "volume down": five points less, at least 0.
pub open spec fn spec_volume_down(volume: u32) -> u32 {
    if volume >= 5 {
        (volume - 5) as u32
    } else {
        0
    }
}

/// Volume after "volume up" (see `spec_volume_up`).
pub fn volume_up(volume: u32) -> (r: u32)
    ensures
        r == spec_volume_up(volume),
{
    if volume <= 145 {
        volume + 5
    } else {
        150
    }
}

/// Volume after "volume down" (see `spec_volume_down`).
pub fn volume_down(volume: u32) -> (r: u32)
    ensures
        r == spec_volume_down(volume),
{
    if volume >= 5 {
        volume - 5
    } else {
        0
    }
}

/// The pause state to ask the player for when toggling pause: pause while
/// playing, resume while paused, nothing otherwise.
pub fn pause_request(status: PlayStatus) -> (r: Option<bool>)
    ensures
        r == (match status {
            PlayStatus::Playing => Some(true),
            PlayStatus::Paused => Some(false),
            _ => None,
        }),
{
    match status {
        PlayStatus::Playing => Some(true),
        PlayStatus::Paused => Some(false),
        _ => None,
    }
}

/// What the preview panel has to do after `refresh_preview`.
#[derive(Debug)]
pub enum PreviewUpdate {
    /// The highlighted track did not change.
    Unchanged,
    /// No track is highlighted any more: drop the preview image.
    Cleared,
    /// The highlight moved; when a track is given, show its thumbnail.
    Moved(Option<Track>),
}

/// The index of the highlighted search result, if there are results.
pub open spec fn highlighted(s: AppState) -> Option<usize> {
    if s.search_results@.len() > 0 {
        Some(s.content_index)
    } else {
        None
    }
}

/// Effect of `refresh_preview`: when the highlight moved, remember it and
/// preview the highlighted track (its thumbnail is loaded only while nothing
/// plays); when it vanished, drop the preview.
pub open spec fn preview_effect(s: AppState, t: AppState, u: PreviewUpdate) -> bool {
    let cur = highlighted(s);
    if cur == s.last_preview_index {
        t == s && u is Unchanged
    } else {
        match cur {
            Some(idx) => if idx < s.search_results@.len() {
                let tr = s.search_results@[idx as int];
                t == AppState {
                    last_preview_index: cur,
                    preview_track: Some(tr),
                    ..s
                } && u == PreviewUpdate::Moved(
                    if s.playback.current_track is None {
                        Some(tr)
                    } else {
                        None
                    },
                )
            } else {
                t == AppState { last_preview_index: cur, ..s } && u == PreviewUpdate::Moved(None)
            },
            None => t == AppState { last_preview_index: None, preview_track: None, ..s }
                && u is Cleared,
        }
    }
}

impl AppState {
    /// The queue index "next" plays (see `spec_next_index`); `seed` picks
    /// the track under shuffle.
    pub fn next_track_index(&self, seed: usize) -> (r: Option<usize>)
        ensures
            r == (match spec_next_index(
                self.queue@.len(),
                self.queue_index,
                self.shuffle,
                self.repeat,
                seed as nat,
            ) {
                Some(i) => Some(i as usize),
                None => None,
            }),
            r matches Some(i) ==> i < self.queue@.len(),
    {
        let len = self.queue.len();
        if len == 0 {
            return None;
        }
        if self.shuffle {
            return Some(seed % len);
        }
        match self.queue_index {
            Some(idx) => if idx >= len - 1 {
                match self.repeat {
                    RepeatMode::All => Some(0),
                    _ => None,
                }
            } else {
                Some(idx + 1)
            },
            None => Some(0),
        }
    }

    /// The queue index "previous" plays (see `spec_prev_index`).
    pub fn prev_track_index(&self) -> (r: Option<usize>)
        ensures
            r == (match spec_prev_index(self.queue@.len(), self.queue_index, self.repeat) {
                Some(i) => Some(i as usize),
                None => None,
            }),
    {
        let len = self.queue.len();
        if len == 0 {
            return None;
        }
        match self.queue_index {
            Some(idx) => if idx == 0 {
                match self.repeat {
                    RepeatMode::All => Some(len - 1),
                    _ => Some(0),
                }
            } else {
                Some(idx - 1)
            },
            None => Some(0),
        }
    }

    /// What to do now that the player stopped: nothing unless a queue track
    /// was playing; then as `spec_auto_next` says.
    pub fn auto_next_step(&self) -> (r: AutoNext)
        ensures
            r == (if self.playback.status == PlayStatus::Stopped && self.queue_index is Some {
                spec_auto_next(self.repeat, self.queue_index, self.queue@.len())
            } else {
                AutoNext::Stay
            }),
    {
        if self.playback.status != PlayStatus::Stopped || self.queue_index.is_none() {
            return AutoNext::Stay;
        }
        match self.repeat {
            RepeatMode::One => match self.queue_index {
                Some(idx) => AutoNext::Replay(idx),
                None => AutoNext::Stay,
            },
            RepeatMode::All => AutoNext::Advance,
            RepeatMode::Off => match self.queue_index {
                Some(idx) => if idx < self.queue.len() && idx + 1 < self.queue.len() {
                    AutoNext::Advance
                } else {
                    AutoNext::Stay
                },
                None => AutoNext::Stay,
            },
        }
    }

    /// Starts playing the track at `idx` of the queue (or, past the queue,
    /// of the search results): makes it current, marks the player as
    /// buffering and shows a loading toast. Returns the track, or nothing
    /// (and changes nothing) when `idx` is out of both lists.
    pub fn start_track(&mut self, idx: usize) -> (r: Option<Track>)
        ensures
            idx >= old(self).queue@.len() && idx >= old(self).search_results@.len() ==> r is None
                && *final(self) == *old(self),
            idx < old(self).queue@.len() || idx < old(self).search_results@.len() ==> {
                let tr = if idx < old(self).queue@.len() {
                    old(self).queue@[idx as int]
                } else {
                    old(self).search_results@[idx as int]
                };
                &&& r == Some(tr)
                &&& *final(self) == (AppState {
                    queue_index: Some(idx),
                    playback: PlaybackState {
                        current_track: Some(tr),
                        status: PlayStatus::Buffering,
                        ..old(self).playback
                    },
                    toast_message: final(self).toast_message,
                    toast_timer: 60,
                    ..*old(self)
                })
                &&& final(self).toast_message matches Some(m) && m@ == loading_toast(tr.title@)
            },
    {
        let track = if idx < self.queue.len() {
            self.queue[idx].clone()
        } else if idx < self.search_results.len() {
            self.search_results[idx].clone()
        } else {
            return None;
        };
        self.queue_index = Some(idx);
        self.playback.current_track = Some(track.clone());
        self.playback.status = PlayStatus::Buffering;
        self.toast_message = Some(concat("Loading: ", track.title.as_str()));
        self.toast_timer = 60;
        Some(track)
    }

    /// Announces that the current track `title` plays.
    pub fn announce_playing(&mut self, title: &str)
        ensures
            *final(self) == (AppState {
                toast_message: final(self).toast_message,
                toast_timer: 30,
                ..*old(self)
            }),
            final(self).toast_message matches Some(m) && m@ == playing_toast(title@),
    {
        self.toast_message = Some(concat("Playing: ", title));
        self.toast_timer = 30;
    }

    /// New search results: they become both the list shown and the play
    /// queue, with the first highlighted and the preview reset.
    pub fn apply_search_results(&mut self, results: Vec<Track>)
        ensures
            *final(self) == (AppState {
                search_results: final(self).search_results,
                queue: final(self).queue,
                content_index: 0,
                last_preview_index: None,
                ..*old(self)
            }),
            final(self).search_results@ == results@,
            final(self).queue@ == results@,
    {
        self.search_results = results.clone();
        assert(self.search_results@ =~= results@);
        self.queue = results;
        self.content_index = 0;
        self.last_preview_index = None;
    }

    /// The tracks of an opened playlist become the list shown, first highlighted.
    pub fn show_tracks(&mut self, tracks: Vec<Track>)
        ensures
            *final(self) == (AppState { search_results: tracks, content_index: 0, ..*old(self) }),
    {
        self.search_results = tracks;
        self.content_index = 0;
    }

    /// One frame of the toast: the timer counts down and the toast goes when it reaches zero.
    pub fn tick_toast(&mut self)
        ensures
            old(self).toast_timer == 0 ==> *final(self) == *old(self),
            old(self).toast_timer == 1 ==> *final(self) == (AppState {
                toast_timer: 0,
                toast_message: None,
                ..*old(self)
            }),
            old(self).toast_timer > 1 ==> *final(self) == (AppState {
                toast_timer: (old(self).toast_timer - 1) as u8,
                ..*old(self)
            }),
    {
        if self.toast_timer > 0 {
            self.toast_timer = self.toast_timer - 1;
            if self.toast_timer == 0 {
                self.toast_message = None;
            }
        }
    }

    /// Follows the highlighted search result into the preview (see `preview_effect`).
    pub fn refresh_preview(&mut self) -> (u: PreviewUpdate)
        ensures
            preview_effect(*old(self), *final(self), u),
    {
        let current = if self.search_results.len() > 0 {
            Some(self.content_index)
        } else {
            None
        };
        if current == self.last_preview_index {
            return PreviewUpdate::Unchanged;
        }
        self.last_preview_index = current;
        match current {
            Some(idx) => {
                if idx < self.search_results.len() {
                    let track = self.search_results[idx].clone();
                    self.preview_track = Some(track.clone());
                    if self.playback.current_track.is_none() {
                        PreviewUpdate::Moved(Some(track))
                    } else {
                        PreviewUpdate::Moved(None)
                    }
                } else {
                    PreviewUpdate::Moved(None)
                }
            },
            None => {
                self.preview_track = None;
                PreviewUpdate::Cleared
            },
        }
    }

    /// Whether the card at `index` of the list, showing the video
    /// `youtube_id`, is the track playing: it is the current queue entry and
    /// the current track is that video.
    pub fn is_playing_card(&self, index: usize, youtube_id: &str) -> (r: bool)
        ensures
            r == (self.queue_index == Some(index) && (self.playback.current_track matches Some(
                t,
            ) && t.youtube_id@ == youtube_id@)),
    {
        if self.queue_index != Some(index) {
            return false;
        }
        match &self.playback.current_track {
            Some(t) => str_eq(t.youtube_id.as_str(), youtube_id),
            None => false,
        }
    }

    /// The playlist that the current track joins after a playlist was
    /// created: the last one listed, when it has an id and a track is current.
    pub fn playlist_for_current_track(&self) -> (r: Option<i64>)
        ensures
            r == (if self.playback.current_track is Some && self.playlists@.len() > 0 {
                self.playlists@.last().id
            } else {
                None
            }),
    {
        if self.playback.current_track.is_none() || self.playlists.len() == 0 {
            return None;
        }
        self.playlists[self.playlists.len() - 1].id
    }

    /// Takes over a state report from the player, keeping the current track,
    /// which only the app knows.
    pub fn apply_player_update(&mut self, update: PlaybackState)
        ensures
            *final(self) == (AppState {
                playback: PlaybackState { current_track: old(self).playback.current_track, ..update },
                ..*old(self)
            }),
    {
        let track = self.playback.current_track.take();
        self.playback = update;
        self.playback.current_track = track;
    }

    /// Shows `message` as the toast for `frames` frames.
    pub fn show_toast(&mut self, message: String, frames: u8)
        ensures
            *final(self) == (AppState {
                toast_message: Some(message),
                toast_timer: frames,
                ..*old(self)
            }),
    {
        self.toast_message = Some(message);
        self.toast_timer = frames;
    }

    /// The audio URL of the track being started could not be had: shows
    /// `URL error: ` and the error for 60 frames and stops the player.
    pub fn fail_loading(&mut self, error: &str)
        ensures
            *final(self) == (AppState {
                toast_message: final(self).toast_message,
                toast_timer: 60,
                playback: PlaybackState { status: PlayStatus::Stopped, ..old(self).playback },
                ..*old(self)
            }),
            final(self).toast_message matches Some(m) && m@ == url_error_toast(error@),
    {
        self.toast_message = Some(concat("URL error: ", error));
        self.toast_timer = 60;
        self.playback.status = PlayStatus::Stopped;
    }

    /// A search ended with `outcome`, what the search returned or its error
    /// text: results go in as `apply_search_results` puts them; an error is
    /// shown as `Search error: ` and the text for 60 frames. Either way no
    /// search runs any more.
    pub fn finish_search(&mut self, outcome: Result<Vec<Track>, String>)
        ensures
            !final(self).searching,
            (match outcome {
                Ok(results) => {
                    &&& *final(self) == (AppState {
                        search_results: final(self).search_results,
                        queue: final(self).queue,
                        content_index: 0,
                        last_preview_index: None,
                        searching: false,
                        ..*old(self)
                    })
                    &&& final(self).search_results@ == results@
                    &&& final(self).queue@ == results@
                },
                Err(e) => {
                    &&& *final(self) == (AppState {
                        searching: false,
                        toast_message: final(self).toast_message,
                        toast_timer: 60,
                        ..*old(self)
                    })
                    &&& final(self).toast_message matches Some(m) && m@ == search_error_toast(e@)
                },
            }),
    {
        match outcome {
            Ok(results) => {
                self.apply_search_results(results);
            },
            Err(e) => {
                self.toast_message = Some(concat("Search error: ", e.as_str()));
                self.toast_timer = 60;
            },
        }
        self.searching = false;
    }

    /// Asked to add the current track to a playlist: with no playlist yet,
    /// the user is told to create one first.
    pub fn note_add_to_playlist(&mut self)
        ensures
            old(self).playlists@.len() > 0 ==> *final(self) == *old(self),
            old(self).playlists@.len() == 0 ==> *final(self) == (AppState {
                toast_message: final(self).toast_message,
                toast_timer: 40,
                ..*old(self)
            }) && (final(self).toast_message matches Some(m) && m@
                == "Create a playlist first"@),
    {
        if self.playlists.len() == 0 {
            self.toast_message = Some(String::from_str("Create a playlist first"));
            self.toast_timer = 40;
        }
    }

    /// A playlist was created: the new playlist list replaces the old one
    /// and a toast names it.
    pub fn playlist_created(&mut self, name: &str, playlists: Vec<crate::models::Playlist>)
        ensures
            *final(self) == (AppState {
                playlists,
                toast_message: final(self).toast_message,
                toast_timer: 30,
                ..*old(self)
            }),
            final(self).toast_message matches Some(m) && m@ == "Created: "@ + name@,
    {
        self.playlists = playlists;
        self.toast_message = Some(concat("Created: ", name));
        self.toast_timer = 30;
    }

    /// Flips the preference shown at position `index` of the settings view;
    /// an index past the list changes nothing.
    pub fn toggle_setting(&mut self, index: usize)
        ensures
            index >= Preferences::KEY_COUNT ==> *final(self) == *old(self),
            index < Preferences::KEY_COUNT ==> *final(self) == (AppState {
                preferences: Preferences { auto_resume: !old(self).preferences.auto_resume },
                ..*old(self)
            }),
    {
        let keys = Preferences::keys();
        if index < keys.len() {
            let (key, _) = keys[index];
            self.preferences.toggle(key);
        }
    }
}

/// Copies the stream details of the full metadata into the current track,
/// keeping what the track had where the metadata has none.
pub fn merge_metadata(current: &mut Track, full: &Track)
    ensures
        *final(current) == (Track {
            codec: if full.codec is Some {
                full.codec
            } else {
                old(current).codec
            },
            bitrate: if full.bitrate is Some {
                full.bitrate
            } else {
                old(current).bitrate
            },
            sample_rate: if full.sample_rate is Some {
                full.sample_rate
            } else {
                old(current).sample_rate
            },
            channels: if full.channels is Some {
                full.channels
            } else {
                old(current).channels
            },
            filesize: if full.filesize is Some {
                full.filesize
            } else {
                old(current).filesize
            },
            ..*old(current)
        }),
{
    if full.codec.is_some() {
        current.codec = crate::models::clone_opt_string(&full.codec);
    }
    if full.bitrate.is_some() {
        current.bitrate = full.bitrate;
    }
    if full.sample_rate.is_some() {
        current.sample_rate = full.sample_rate;
    }
    if full.channels.is_some() {
        current.channels = full.channels;
    }
    if full.filesize.is_some() {
        current.filesize = full.filesize;
    }
}

} // verus!
