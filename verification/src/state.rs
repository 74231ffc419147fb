//! The application state that key presses and player events act on.
use vstd::prelude::*;
use crate::models::{PlaybackState, Playlist, Track};
use crate::text::str_eq;

verus! {

/// What a loading indicator is waiting for.
#[derive(Debug, Clone, Copy, PartialEq, Eq, Structural)]
pub enum LoadingKind {
    Search,
    Buffering,
    Thumbnails,
    Playlist,
}

/// The panel that receives key presses.
#[derive(Debug, Clone, Copy, PartialEq, Eq, Structural)]
pub enum Focus {
    Navigation,
    Center,
    Queue,
    SearchInput,
}

/// The entries of the navigation panel.
#[derive(Debug, Clone, Copy, PartialEq, Eq, Structural)]
pub enum NavSection {
    Search,
    Playlists,
    History,
    Settings,
}

/// What the content panel shows.
#[derive(Debug, Clone, Copy, PartialEq, Eq, Structural)]
pub enum ContentView {
    SearchResults,
    PlaylistTracks(i64),
    CategoryPlaylists(i64),
    HistoryList,
    Settings,
    Empty,
}

/// Whether the queue repeats when it runs out.
#[derive(Debug, Clone, Copy, PartialEq, Eq, Structural)]
pub enum RepeatMode {
    Off,
    One,
    All,
}

/// Visualizer styles of the equalizer panel.
#[derive(Debug, Clone, Copy, PartialEq, Eq, Structural)]
pub enum EqStyle {
    Bars,
    Blocks,
    Peaks,
    Mirror,
    Wave,
}

/// The visualizer styles in the order `next` cycles through them.
pub open spec fn eq_styles() -> Seq<EqStyle> {
    seq![EqStyle::Bars, EqStyle::Blocks, EqStyle::Peaks, EqStyle::Mirror, EqStyle::Wave]
}

impl EqStyle {
    /// Position of the style in `eq_styles()`.
    pub open spec fn index(self) -> int {
        match self {
            EqStyle::Bars => 0,
            EqStyle::Blocks => 1,
            EqStyle::Peaks => 2,
            EqStyle::Mirror => 3,
            EqStyle::Wave => 4,
        }
    }

    /// The name shown in the style selector.
    pub open spec fn spec_label(self) -> Seq<char> {
        match self {
            EqStyle::Bars => "Bars"@,
            EqStyle::Blocks => "Blocks"@,
            EqStyle::Peaks => "Peaks"@,
            EqStyle::Mirror => "Mirror"@,
            EqStyle::Wave => "Wave"@,
        }
    }

    /// The style after this one in `eq_styles()`, wrapping from the last to the first.
    pub open spec fn spec_next(self) -> EqStyle {
        eq_styles()[(self.index() + 1) % 5]
    }

    /// All styles, in cycling order.
    pub fn all() -> (r: [EqStyle; 5])
        ensures
            r@ == eq_styles(),
    {
        let r = [EqStyle::Bars, EqStyle::Blocks, EqStyle::Peaks, EqStyle::Mirror, EqStyle::Wave];
        assert(r@ =~= eq_styles());
        r
    }

    /// The style's display name.
    pub fn label(self) -> (r: &'static str)
        ensures
            r@ == self.spec_label(),
    {
        match self {
            EqStyle::Bars => "Bars",
            EqStyle::Blocks => "Blocks",
            EqStyle::Peaks => "Peaks",
            EqStyle::Mirror => "Mirror",
            EqStyle::Wave => "Wave",
        }
    }

    /// The style after this one, wrapping from the last to the first.
    pub fn next(self) -> (r: EqStyle)
        ensures
            r == self.spec_next(),
    {
        match self {
            EqStyle::Bars => EqStyle::Blocks,
            EqStyle::Blocks => EqStyle::Peaks,
            EqStyle::Peaks => EqStyle::Mirror,
            EqStyle::Mirror => EqStyle::Wave,
            EqStyle::Wave => EqStyle::Bars,
        }
    }
}

/// User preferences that can be toggled in the settings view.
#[derive(Debug, Clone, Copy, PartialEq, Eq, Structural)]
pub struct Preferences {
    pub auto_resume: bool,
}

/// The key of the one preference.
pub open spec fn auto_resume_key() -> Seq<char> {
    "auto_resume"@
}

impl Default for Preferences {
    /// Auto-resume on.
    fn default() -> (r: Self)
        ensures
            r.auto_resume,
    {
        Preferences { auto_resume: true }
    }
}

impl Preferences {
    /// Number of preferences in the settings view.
    pub const KEY_COUNT: usize = 1;

    /// The preferences as (key, description) pairs, in display order.
    pub fn keys() -> (r: Vec<(&'static str, &'static str)>)
        ensures
            r@.len() == Self::KEY_COUNT,
            r@[0].0@ == auto_resume_key(),
            r@[0].1@ == "Resume playback on startup"@,
    {
        let mut r = Vec::new();
        r.push(("auto_resume", "Resume playback on startup"));
        r
    }

    /// The value of the preference named `key`; false for an unknown key.
    pub fn get(&self, key: &str) -> (r: bool)
        ensures
            r == (key@ == auto_resume_key() && self.auto_resume),
    {
        if str_eq(key, "auto_resume") {
            self.auto_resume
        } else {
            false
        }
    }

    /// Flips the preference named `key`; an unknown key changes nothing.
    pub fn toggle(&mut self, key: &str)
        ensures
            final(self).auto_resume == (if key@ == auto_resume_key() {
                !old(self).auto_resume
            } else {
                old(self).auto_resume
            }),
    {
        if str_eq(key, "auto_resume") {
            self.auto_resume = !self.auto_resume;
        }
    }
}

/// The state that key handling and playback decisions read and change.
#[derive(Debug)]
pub struct AppState {
    pub running: bool,
    pub focus: Focus,
    pub nav_section: NavSection,
    pub nav_index: usize,
    pub content_view: ContentView,
    pub content_index: usize,
    // Search
    pub search_query: String,
    pub search_results: Vec<Track>,
    pub searching: bool,
    // Playback
    pub playback: PlaybackState,
    pub shuffle: bool,
    pub repeat: RepeatMode,
    // Play queue
    pub queue: Vec<Track>,
    pub queue_index: Option<usize>,
    // Data
    pub playlists: Vec<Playlist>,
    /// Which playlist is highlighted in the navigation panel.
    pub nav_sub_index: usize,
    // Preview (highlighted track in search results)
    pub preview_track: Option<Track>,
    pub last_preview_index: Option<usize>,
    // Popup
    pub show_playlist_popup: bool,
    pub popup_input: String,
    pub popup_description: String,
    // Toast
    pub toast_message: Option<String>,
    pub toast_timer: u8,
    pub queue_scroll: usize,
    /// Frames the theme selector stays visible.
    pub theme_selector_timer: u8,
    pub eq_style: EqStyle,
    pub eq_selector_timer: u8,
    pub preferences: Preferences,
    pub settings_index: usize,
    /// Frame counter for animations.
    pub frame_count: usize,
    /// Frame of the last seek, and how many seeks came in quick succession.
    pub last_seek_frame: usize,
    pub seek_streak: usize,
}

impl Default for AppState {
    /// Running, navigation focused on Search, nothing loaded, nothing shown.
    fn default() -> (r: Self)
        ensures
            r.running,
            r.focus == Focus::Navigation,
            r.nav_section == NavSection::Search,
            r.nav_index == 0,
            r.content_view == ContentView::Empty,
            r.content_index == 0,
            r.search_query@ == Seq::<char>::empty(),
            r.search_results@.len() == 0,
            !r.searching,
            r.playback.status == crate::models::PlayStatus::Stopped,
            r.playback.position_ms == 0,
            r.playback.duration_ms == 0,
            r.playback.volume == 100,
            r.playback.current_track is None,
            !r.shuffle,
            r.repeat == RepeatMode::Off,
            r.queue@.len() == 0,
            r.queue_index is None,
            r.playlists@.len() == 0,
            r.nav_sub_index == 0,
            r.preview_track is None,
            r.last_preview_index is None,
            !r.show_playlist_popup,
            r.popup_input@ == Seq::<char>::empty(),
            r.popup_description@ == Seq::<char>::empty(),
            r.toast_message is None,
            r.toast_timer == 0,
            r.queue_scroll == 0,
            r.theme_selector_timer == 0,
            r.eq_style == EqStyle::Bars,
            r.eq_selector_timer == 0,
            r.preferences.auto_resume,
            r.settings_index == 0,
            r.frame_count == 0,
            r.last_seek_frame == 0,
            r.seek_streak == 0,
    {
        AppState {
            running: true,
            focus: Focus::Navigation,
            nav_section: NavSection::Search,
            nav_index: 0,
            content_view: ContentView::Empty,
            content_index: 0,
            search_query: String::new(),
            search_results: Vec::new(),
            searching: false,
            playback: PlaybackState::default(),
            shuffle: false,
            repeat: RepeatMode::Off,
            queue: Vec::new(),
            queue_index: None,
            playlists: Vec::new(),
            nav_sub_index: 0,
            preview_track: None,
            last_preview_index: None,
            show_playlist_popup: false,
            popup_input: String::new(),
            popup_description: String::new(),
            toast_message: None,
            toast_timer: 0,
            queue_scroll: 0,
            theme_selector_timer: 0,
            eq_style: EqStyle::Bars,
            eq_selector_timer: 0,
            preferences: Preferences::default(),
            settings_index: 0,
            frame_count: 0,
            last_seek_frame: 0,
            seek_streak: 0,
        }
    }
}

} // verus!
