//! Key handling: how each key press changes the application state and which
//! action it asks the application to carry out.
use vstd::prelude::*;
use crate::models::PlayStatus;
use crate::state::{AppState, ContentView, Focus, NavSection, Preferences, RepeatMode};
use crate::text::{clear_string, concat, pop_char, push_char};

verus! {

/// The keys the application tells apart.
#[derive(Debug, Clone, Copy, PartialEq, Eq, Structural)]
pub enum KeyCode {
    Char(char),
    Enter,
    Esc,
    Backspace,
    Tab,
    BackTab,
    Left,
    Right,
    Up,
    Down,
    Other,
}

/// A key press: the key and whether Control was held.
#[derive(Debug, Clone, Copy, PartialEq, Eq, Structural)]
pub struct KeyEvent {
    pub code: KeyCode,
    pub ctrl: bool,
}

/// What the application should do after a key press. Seeks are in whole seconds.
#[derive(Debug)]
pub enum AppAction {
    NoOp,
    Quit,
    Search(String),
    PlayTrackIndex(usize),
    Pause,
    Resume,
    TogglePause,
    Seek(i64),
    VolumeUp,
    VolumeDown,
    NextTrack,
    PrevTrack,
    AddToPlaylist,
    CreatePlaylist(String, String),
    LoadPlaylists,
    LoadHistory,
    LoadPlaylistTracks(i64),
    CycleTheme,
    CycleEq,
    ToggleSetting(usize),
}

/// The toast shown when toggling shuffle.
pub open spec fn shuffle_toast(on: bool) -> Seq<char> {
    if on {
        "Shuffle: On"@
    } else {
        "Shuffle: Off"@
    }
}

/// The repeat mode after `r` in the cycle Off, One, All.
pub open spec fn next_repeat(r: RepeatMode) -> RepeatMode {
    match r {
        RepeatMode::Off => RepeatMode::One,
        RepeatMode::One => RepeatMode::All,
        RepeatMode::All => RepeatMode::Off,
    }
}

/// The toast shown when the repeat mode becomes `r`.
pub open spec fn repeat_toast(r: RepeatMode) -> Seq<char> {
    match r {
        RepeatMode::Off => "Repeat: Off"@,
        RepeatMode::One => "Repeat: One"@,
        RepeatMode::All => "Repeat: All"@,
    }
}

/// The toast shown when Enter on Playlists finds no playlist to open.
pub open spec fn no_playlists_toast() -> Seq<char> {
    "No playlists yet \u{2014} play a track and press 'a' to create one"@
}

/// Seconds one seek jumps after `streak` seeks in quick succession:
/// 5 s, then 10 s, 15 s, 30 s and 60 s as the streak grows.
pub open spec fn seek_step(streak: nat) -> int {
    if streak <= 3 {
        5
    } else if streak <= 8 {
        10
    } else if streak <= 15 {
        15
    } else if streak <= 25 {
        30
    } else {
        60
    }
}

/// The toast of a seek: an arrow for the direction and the step (`>> 5s`, `<< 1m`).
pub open spec fn seek_toast(forward: bool, secs: int) -> Seq<char> {
    (if forward {
        ">>"@
    } else {
        "<<"@
    }) + " "@ + (if secs == 5 {
        "5s"@
    } else if secs == 10 {
        "10s"@
    } else if secs == 15 {
        "15s"@
    } else if secs == 30 {
        "30s"@
    } else {
        "1m"@
    })
}

/// Length of the list that the content panel navigates.
pub open spec fn list_len(s: AppState) -> nat {
    match s.content_view {
        ContentView::SearchResults | ContentView::PlaylistTracks(_) | ContentView::HistoryList => s.search_results@.len(),
        _ => 0,
    }
}

/// The navigation sections in panel order.
pub open spec fn nav_order(n: NavSection) -> int {
    match n {
        NavSection::Search => 0,
        NavSection::Playlists => 1,
        NavSection::History => 2,
        NavSection::Settings => 3,
    }
}

/// The section at position `i` (mod 4) of the panel.
pub open spec fn nav_at(i: int) -> NavSection {
    if i % 4 == 0 {
        NavSection::Search
    } else if i % 4 == 1 {
        NavSection::Playlists
    } else if i % 4 == 2 {
        NavSection::History
    } else {
        NavSection::Settings
    }
}

/// Effect of a key while the new-playlist popup is open.
pub open spec fn popup_key(s: AppState, t: AppState, key: KeyEvent, a: AppAction) -> bool {
    match key.code {
        KeyCode::Esc => t == AppState { show_playlist_popup: false, ..s } && a is NoOp,
        KeyCode::Enter => t == AppState { show_playlist_popup: false, ..s } && if s.popup_input@.len()
            > 0 {
            a matches AppAction::CreatePlaylist(n, d) && n@ == s.popup_input@ && d@
                == s.popup_description@
        } else {
            a is NoOp
        },
        KeyCode::Backspace => t == AppState { popup_input: t.popup_input, ..s } && t.popup_input@
            == (if s.popup_input@.len() > 0 {
            s.popup_input@.drop_last()
        } else {
            s.popup_input@
        }) && a is NoOp,
        KeyCode::Char(c) => t == AppState { popup_input: t.popup_input, ..s } && t.popup_input@
            == s.popup_input@.push(c) && a is NoOp,
        _ => t == s && a is NoOp,
    }
}

/// Effect of a key while the search input has focus.
pub open spec fn search_input_key(s: AppState, t: AppState, key: KeyEvent, a: AppAction) -> bool {
    match key.code {
        KeyCode::Enter => if s.search_query@.len() > 0 {
            t == AppState { searching: true, focus: Focus::Queue, ..s } && (a matches AppAction::Search(
                q,
            ) && q@ == s.search_query@)
        } else {
            t == s && a is NoOp
        },
        KeyCode::Esc => t == AppState { focus: Focus::Queue, ..s } && a is NoOp,
        KeyCode::Backspace => t == AppState { search_query: t.search_query, ..s }
            && t.search_query@ == (if s.search_query@.len() > 0 {
            s.search_query@.drop_last()
        } else {
            s.search_query@
        }) && a is NoOp,
        KeyCode::Char(c) => t == AppState { search_query: t.search_query, ..s } && t.search_query@
            == s.search_query@.push(c) && a is NoOp,
        _ => t == s && a is NoOp,
    }
}

/// Effect of a seek key with the player active: the streak grows when the
/// previous seek was fewer than 15 frames ago and restarts at 1 otherwise;
/// the jump grows with the streak.
pub open spec fn seek_key(s: AppState, t: AppState, forward: bool, a: AppAction) -> bool {
    let gap = if s.frame_count >= s.last_seek_frame {
        s.frame_count - s.last_seek_frame
    } else {
        0
    };
    let streak = if gap < 15 {
        if s.seek_streak < usize::MAX {
            s.seek_streak + 1
        } else {
            s.seek_streak as int
        }
    } else {
        1
    };
    let secs = seek_step(streak as nat);
    &&& t == AppState {
        seek_streak: streak as usize,
        last_seek_frame: s.frame_count,
        toast_message: t.toast_message,
        toast_timer: 15,
        ..s
    }
    &&& t.toast_message matches Some(m) && m@ == seek_toast(forward, secs)
    &&& a matches AppAction::Seek(d) && d == (if forward {
        secs
    } else {
        -secs
    })
}

/// Moving down the navigation panel: through the playlists while on
/// Playlists, otherwise to the next section (wrapping).
pub open spec fn nav_down(s: AppState, t: AppState, a: AppAction) -> bool {
    let n = s.playlists@.len();
    a is NoOp && if s.nav_section == NavSection::Playlists && n > 0 && s.nav_sub_index < n - 1 {
        t == AppState { nav_sub_index: (s.nav_sub_index + 1) as usize, ..s }
    } else {
        t == AppState { nav_section: nav_at(nav_order(s.nav_section) + 1), nav_sub_index: 0, ..s }
    }
}

/// Moving up the navigation panel: back through the playlists while on
/// Playlists, otherwise to the previous section (wrapping), entering
/// Playlists at its last playlist.
pub open spec fn nav_up(s: AppState, t: AppState, a: AppAction) -> bool {
    let n = s.playlists@.len();
    let prev = nav_at(nav_order(s.nav_section) + 3);
    a is NoOp && if s.nav_section == NavSection::Playlists && s.nav_sub_index > 0 {
        t == AppState { nav_sub_index: (s.nav_sub_index - 1) as usize, ..s }
    } else {
        t == AppState {
            nav_section: prev,
            nav_sub_index: if prev == NavSection::Playlists && n > 0 {
                (n - 1) as usize
            } else {
                0
            },
            ..s
        }
    }
}

/// Opening the highlighted navigation entry.
pub open spec fn nav_enter(s: AppState, t: AppState, a: AppAction) -> bool {
    let n = s.playlists@.len();
    match s.nav_section {
        NavSection::Search => t == AppState {
            focus: Focus::SearchInput,
            content_view: ContentView::SearchResults,
            ..s
        } && a is NoOp,
        NavSection::Playlists => if s.nav_sub_index < n && s.playlists@[s.nav_sub_index as int].id is Some {
            let id = s.playlists@[s.nav_sub_index as int].id.unwrap();
            t == AppState {
                content_view: ContentView::PlaylistTracks(id),
                content_index: 0,
                focus: Focus::Queue,
                ..s
            } && a == AppAction::LoadPlaylistTracks(id)
        } else {
            &&& t == AppState {
                content_view: ContentView::SearchResults,
                search_results: t.search_results,
                queue: t.queue,
                content_index: 0,
                toast_message: t.toast_message,
                toast_timer: 60,
                ..s
            }
            &&& t.search_results@.len() == 0
            &&& t.queue@.len() == 0
            &&& t.toast_message matches Some(m) && m@ == no_playlists_toast()
            &&& a is LoadPlaylists
        },
        NavSection::History => t == AppState {
            content_view: ContentView::HistoryList,
            content_index: 0,
            ..s
        } && a is LoadHistory,
        NavSection::Settings => t == AppState {
            content_view: ContentView::Settings,
            settings_index: 0,
            focus: Focus::Queue,
            ..s
        } && a is NoOp,
    }
}

/// Effect of a key on the navigation panel.
pub open spec fn nav_key(s: AppState, t: AppState, key: KeyEvent, a: AppAction) -> bool {
    match key.code {
        KeyCode::Char('j') | KeyCode::Down => nav_down(s, t, a),
        KeyCode::Char('k') | KeyCode::Up => nav_up(s, t, a),
        KeyCode::Enter => nav_enter(s, t, a),
        _ => t == s && a is NoOp,
    }
}

/// Effect of a key on the content panel.
pub open spec fn queue_key(s: AppState, t: AppState, key: KeyEvent, a: AppAction) -> bool {
    if s.content_view == ContentView::Settings {
        let count = Preferences::KEY_COUNT;
        match key.code {
            KeyCode::Char('j') | KeyCode::Down => a is NoOp && t == AppState {
                settings_index: if s.settings_index + 1 < count {
                    (s.settings_index + 1) as usize
                } else {
                    (count - 1) as usize
                },
                ..s
            },
            KeyCode::Char('k') | KeyCode::Up => a is NoOp && t == AppState {
                settings_index: if s.settings_index > 0 {
                    (s.settings_index - 1) as usize
                } else {
                    0
                },
                ..s
            },
            KeyCode::Enter | KeyCode::Char(' ') => t == s && a == AppAction::ToggleSetting(
                s.settings_index,
            ),
            _ => t == s && a is NoOp,
        }
    } else {
        let len = list_len(s);
        match key.code {
            KeyCode::Char('j') | KeyCode::Down => a is NoOp && if len > 0 {
                t == AppState {
                    content_index: if s.content_index + 1 < len {
                        (s.content_index + 1) as usize
                    } else {
                        (len - 1) as usize
                    },
                    ..s
                }
            } else {
                t == s
            },
            KeyCode::Char('k') | KeyCode::Up => a is NoOp && t == AppState {
                content_index: if s.content_index > 0 {
                    (s.content_index - 1) as usize
                } else {
                    0
                },
                ..s
            },
            KeyCode::Enter => t == s && if len > 0 && s.content_index < len {
                a == AppAction::PlayTrackIndex(s.content_index)
            } else {
                a is NoOp
            },
            _ => t == s && a is NoOp,
        }
    }
}

/// Effect of a key that no global binding takes: the focused panel handles it.
pub open spec fn panel_key(s: AppState, t: AppState, key: KeyEvent, a: AppAction) -> bool {
    match s.focus {
        Focus::Navigation => nav_key(s, t, key, a),
        Focus::Queue => queue_key(s, t, key, a),
        _ => t == s && a is NoOp,
    }
}

/// Whether `key` is Ctrl+C.
pub open spec fn is_interrupt(key: KeyEvent) -> bool {
    key.ctrl && key.code == KeyCode::Char('c')
}

/// Effect of a key when neither the popup nor the search input takes it.
pub open spec fn global_key(s: AppState, t: AppState, key: KeyEvent, a: AppAction) -> bool {
    let active = s.playback.status != PlayStatus::Stopped;
    let code = key.code;
    if code == KeyCode::Char('q') {
        t == s && a is Quit
    } else if (code == KeyCode::Tab || code == KeyCode::Right || code == KeyCode::Char('l'))
        && s.focus == Focus::Navigation {
        t == AppState { focus: Focus::Queue, ..s } && a is NoOp
    } else if code == KeyCode::Tab {
        t == AppState {
            focus: if s.focus == Focus::Queue {
                Focus::Navigation
            } else if s.focus == Focus::SearchInput {
                Focus::Queue
            } else {
                Focus::Navigation
            },
            ..s
        } && a is NoOp
    } else if (code == KeyCode::BackTab || code == KeyCode::Left || code == KeyCode::Char('h'))
        && s.focus == Focus::Queue {
        t == AppState { focus: Focus::Navigation, ..s } && a is NoOp
    } else if code == KeyCode::BackTab {
        t == AppState {
            focus: if s.focus == Focus::Navigation {
                Focus::Queue
            } else {
                Focus::Navigation
            },
            ..s
        } && a is NoOp
    } else if code == KeyCode::Char('/') {
        t == AppState {
            focus: Focus::SearchInput,
            content_view: ContentView::SearchResults,
            ..s
        } && a is NoOp
    } else if code == KeyCode::Char(' ') {
        t == s && a is TogglePause
    } else if code == KeyCode::Left && active {
        seek_key(s, t, false, a)
    } else if code == KeyCode::Right && active {
        seek_key(s, t, true, a)
    } else if code == KeyCode::Char('+') || code == KeyCode::Char('=') {
        t == s && a is VolumeUp
    } else if code == KeyCode::Char('-') {
        t == s && a is VolumeDown
    } else if code == KeyCode::Char('n') {
        t == s && a is NextTrack
    } else if code == KeyCode::Char('p') {
        t == s && a is PrevTrack
    } else if code == KeyCode::Char('a') {
        t == AppState {
            show_playlist_popup: true,
            popup_input: t.popup_input,
            popup_description: t.popup_description,
            ..s
        } && t.popup_input@.len() == 0 && t.popup_description@.len() == 0 && a is AddToPlaylist
    } else if code == KeyCode::Char('s') {
        t == AppState {
            shuffle: !s.shuffle,
            toast_message: t.toast_message,
            toast_timer: 30,
            ..s
        } && (t.toast_message matches Some(m) && m@ == shuffle_toast(!s.shuffle)) && a is NoOp
    } else if code == KeyCode::Char('t') {
        t == s && a is CycleTheme
    } else if code == KeyCode::Char('e') {
        t == s && a is CycleEq
    } else if code == KeyCode::Char('r') {
        t == AppState {
            repeat: next_repeat(s.repeat),
            toast_message: t.toast_message,
            toast_timer: 30,
            ..s
        } && (t.toast_message matches Some(m) && m@ == repeat_toast(next_repeat(s.repeat)))
            && a is NoOp
    } else {
        panel_key(s, t, key, a)
    }
}

/// Effect of any key press: Ctrl+C quits; the popup, then the search input,
/// take keys while open or focused; otherwise the global bindings apply,
/// then the focused panel's.
pub open spec fn key_effect(s: AppState, t: AppState, key: KeyEvent, a: AppAction) -> bool {
    if is_interrupt(key) {
        t == s && a is Quit
    } else if s.show_playlist_popup {
        popup_key(s, t, key, a)
    } else if s.focus == Focus::SearchInput {
        search_input_key(s, t, key, a)
    } else {
        global_key(s, t, key, a)
    }
}

/// Applies one key press to the state and returns the action it asks for.
pub fn handle_key(state: &mut AppState, key: KeyEvent) -> (a: AppAction)
    ensures
        key_effect(*old(state), *final(state), key, a),
{
    if key.ctrl && key.code == KeyCode::Char('c') {
        return AppAction::Quit;
    }
    if state.show_playlist_popup {
        return handle_popup_key(state, key);
    }
    if state.focus == Focus::SearchInput {
        return handle_search_input(state, key);
    }
    let code = key.code;
    if code == KeyCode::Char('q') {
        AppAction::Quit
    } else if (code == KeyCode::Tab || code == KeyCode::Right || code == KeyCode::Char('l'))
        && state.focus == Focus::Navigation {
        state.focus = Focus::Queue;
        AppAction::NoOp
    } else if code == KeyCode::Tab {
        state.focus = match state.focus {
            Focus::Navigation => Focus::Queue,
            Focus::Queue => Focus::Navigation,
            Focus::SearchInput => Focus::Queue,
            _ => Focus::Navigation,
        };
        AppAction::NoOp
    } else if (code == KeyCode::BackTab || code == KeyCode::Left || code == KeyCode::Char('h'))
        && state.focus == Focus::Queue {
        state.focus = Focus::Navigation;
        AppAction::NoOp
    } else if code == KeyCode::BackTab {
        state.focus = match state.focus {
            Focus::Navigation => Focus::Queue,
            Focus::Queue => Focus::Navigation,
            Focus::SearchInput => Focus::Navigation,
            _ => Focus::Navigation,
        };
        AppAction::NoOp
    } else if code == KeyCode::Char('/') {
        state.focus = Focus::SearchInput;
        state.content_view = ContentView::SearchResults;
        AppAction::NoOp
    } else if code == KeyCode::Char(' ') {
        AppAction::TogglePause
    } else if code == KeyCode::Left && state.playback.status != PlayStatus::Stopped {
        seek_with_accel(state, false)
    } else if code == KeyCode::Right && state.playback.status != PlayStatus::Stopped {
        seek_with_accel(state, true)
    } else if code == KeyCode::Char('+') || code == KeyCode::Char('=') {
        AppAction::VolumeUp
    } else if code == KeyCode::Char('-') {
        AppAction::VolumeDown
    } else if code == KeyCode::Char('n') {
        AppAction::NextTrack
    } else if code == KeyCode::Char('p') {
        AppAction::PrevTrack
    } else if code == KeyCode::Char('a') {
        open_playlist_popup(state)
    } else if code == KeyCode::Char('s') {
        toggle_shuffle(state)
    } else if code == KeyCode::Char('t') {
        AppAction::CycleTheme
    } else if code == KeyCode::Char('e') {
        AppAction::CycleEq
    } else if code == KeyCode::Char('r') {
        cycle_repeat(state)
    } else {
        handle_panel_key(state, key)
    }
}

fn open_playlist_popup(state: &mut AppState) -> (a: AppAction)
    ensures
        *final(state) == (AppState {
            show_playlist_popup: true,
            popup_input: final(state).popup_input,
            popup_description: final(state).popup_description,
            ..*old(state)
        }),
        final(state).popup_input@.len() == 0,
        final(state).popup_description@.len() == 0,
        a is AddToPlaylist,
{
    state.show_playlist_popup = true;
    clear_string(&mut state.popup_input);
    clear_string(&mut state.popup_description);
    AppAction::AddToPlaylist
}

fn toggle_shuffle(state: &mut AppState) -> (a: AppAction)
    ensures
        *final(state) == (AppState {
            shuffle: !old(state).shuffle,
            toast_message: final(state).toast_message,
            toast_timer: 30,
            ..*old(state)
        }),
        final(state).toast_message matches Some(m) && m@ == shuffle_toast(!old(state).shuffle),
        a is NoOp,
{
    state.shuffle = !state.shuffle;
    let msg = if state.shuffle {
        String::from_str("Shuffle: On")
    } else {
        String::from_str("Shuffle: Off")
    };
    state.toast_message = Some(msg);
    state.toast_timer = 30;
    AppAction::NoOp
}

fn cycle_repeat(state: &mut AppState) -> (a: AppAction)
    ensures
        *final(state) == (AppState {
            repeat: next_repeat(old(state).repeat),
            toast_message: final(state).toast_message,
            toast_timer: 30,
            ..*old(state)
        }),
        final(state).toast_message matches Some(m) && m@ == repeat_toast(next_repeat(old(state).repeat)),
        a is NoOp,
{
    state.repeat = match state.repeat {
        RepeatMode::Off => RepeatMode::One,
        RepeatMode::One => RepeatMode::All,
        RepeatMode::All => RepeatMode::Off,
    };
    let label = match state.repeat {
        RepeatMode::Off => "Off",
        RepeatMode::One => "One",
        RepeatMode::All => "All",
    };
    proof {
        reveal_strlit("Repeat: ");
        reveal_strlit("Off");
        reveal_strlit("One");
        reveal_strlit("All");
        reveal_strlit("Repeat: Off");
        reveal_strlit("Repeat: One");
        reveal_strlit("Repeat: All");
    }
    state.toast_message = Some(concat("Repeat: ", label));
    state.toast_timer = 30;
    AppAction::NoOp
}

fn handle_panel_key(state: &mut AppState, key: KeyEvent) -> (a: AppAction)
    ensures
        panel_key(*old(state), *final(state), key, a),
{
    match state.focus {
        Focus::Navigation => handle_nav_key(state, key),
        Focus::Queue => handle_queue_key(state, key),
        _ => AppAction::NoOp,
    }
}

fn nav_section_at(i: usize) -> (r: NavSection)
    ensures
        r == nav_at(i as int),
{
    if i % 4 == 0 {
        NavSection::Search
    } else if i % 4 == 1 {
        NavSection::Playlists
    } else if i % 4 == 2 {
        NavSection::History
    } else {
        NavSection::Settings
    }
}

/// Applies a key press to the navigation panel (see `nav_key`).
pub fn handle_nav_key(state: &mut AppState, key: KeyEvent) -> (a: AppAction)
    ensures
        nav_key(*old(state), *final(state), key, a),
{
    match key.code {
        KeyCode::Char('j') | KeyCode::Down => nav_move_down(state),
        KeyCode::Char('k') | KeyCode::Up => nav_move_up(state),
        KeyCode::Enter => nav_open(state),
        _ => AppAction::NoOp,
    }
}

fn nav_position(n: NavSection) -> (r: usize)
    ensures
        r == nav_order(n),
{
    match n {
        NavSection::Search => 0,
        NavSection::Playlists => 1,
        NavSection::History => 2,
        NavSection::Settings => 3,
    }
}

fn nav_move_down(state: &mut AppState) -> (a: AppAction)
    ensures
        nav_down(*old(state), *final(state), a),
{
    if state.nav_section == NavSection::Playlists && state.playlists.len() > 0 {
        if state.nav_sub_index < state.playlists.len() - 1 {
            state.nav_sub_index = state.nav_sub_index + 1;
            return AppAction::NoOp;
        }
    }
    state.nav_section = nav_section_at(nav_position(state.nav_section) + 1);
    state.nav_sub_index = 0;
    AppAction::NoOp
}

fn nav_move_up(state: &mut AppState) -> (a: AppAction)
    ensures
        nav_up(*old(state), *final(state), a),
{
    if state.nav_section == NavSection::Playlists && state.nav_sub_index > 0 {
        state.nav_sub_index = state.nav_sub_index - 1;
        return AppAction::NoOp;
    }
    state.nav_section = nav_section_at(nav_position(state.nav_section) + 3);
    if state.nav_section == NavSection::Playlists && state.playlists.len() > 0 {
        state.nav_sub_index = state.playlists.len() - 1;
    } else {
        state.nav_sub_index = 0;
    }
    AppAction::NoOp
}

fn nav_open(state: &mut AppState) -> (a: AppAction)
    ensures
        nav_enter(*old(state), *final(state), a),
{
    match state.nav_section {
        NavSection::Search => {
            state.focus = Focus::SearchInput;
            state.content_view = ContentView::SearchResults;
            AppAction::NoOp
        },
        NavSection::Playlists => {
            if state.nav_sub_index < state.playlists.len() {
                if let Some(id) = state.playlists[state.nav_sub_index].id {
                    state.content_view = ContentView::PlaylistTracks(id);
                    state.content_index = 0;
                    state.focus = Focus::Queue;
                    return AppAction::LoadPlaylistTracks(id);
                }
            }
            state.content_view = ContentView::SearchResults;
            state.search_results.clear();
            state.queue.clear();
            state.content_index = 0;
            state.toast_message = Some(
                String::from_str("No playlists yet \u{2014} play a track and press 'a' to create one"),
            );
            state.toast_timer = 60;
            AppAction::LoadPlaylists
        },
        NavSection::History => {
            state.content_view = ContentView::HistoryList;
            state.content_index = 0;
            AppAction::LoadHistory
        },
        NavSection::Settings => {
            state.content_view = ContentView::Settings;
            state.settings_index = 0;
            state.focus = Focus::Queue;
            AppAction::NoOp
        },
    }
}

/// Applies a key press to the content panel (see `queue_key`).
pub fn handle_queue_key(state: &mut AppState, key: KeyEvent) -> (a: AppAction)
    ensures
        queue_key(*old(state), *final(state), key, a),
{
    if state.content_view == ContentView::Settings {
        let num_settings = Preferences::KEY_COUNT;
        return match key.code {
            KeyCode::Char('j') | KeyCode::Down => {
                if num_settings > 0 {
                    state.settings_index = if state.settings_index < num_settings - 1 {
                        state.settings_index + 1
                    } else {
                        num_settings - 1
                    };
                }
                AppAction::NoOp
            },
            KeyCode::Char('k') | KeyCode::Up => {
                if state.settings_index > 0 {
                    state.settings_index = state.settings_index - 1;
                }
                AppAction::NoOp
            },
            KeyCode::Enter | KeyCode::Char(' ') => AppAction::ToggleSetting(state.settings_index),
            _ => AppAction::NoOp,
        };
    }
    let list_len = match state.content_view {
        ContentView::SearchResults => state.search_results.len(),
        ContentView::PlaylistTracks(_) => state.search_results.len(),
        ContentView::HistoryList => state.search_results.len(),
        _ => 0,
    };
    match key.code {
        KeyCode::Char('j') | KeyCode::Down => {
            if list_len > 0 {
                state.content_index = if state.content_index < list_len - 1 {
                    state.content_index + 1
                } else {
                    list_len - 1
                };
            }
            AppAction::NoOp
        },
        KeyCode::Char('k') | KeyCode::Up => {
            if state.content_index > 0 {
                state.content_index = state.content_index - 1;
            }
            AppAction::NoOp
        },
        KeyCode::Enter => {
            if list_len > 0 && state.content_index < list_len {
                AppAction::PlayTrackIndex(state.content_index)
            } else {
                AppAction::NoOp
            }
        },
        _ => AppAction::NoOp,
    }
}

fn handle_search_input(state: &mut AppState, key: KeyEvent) -> (a: AppAction)
    ensures
        search_input_key(*old(state), *final(state), key, a),
{
    match key.code {
        KeyCode::Enter => {
            let query = state.search_query.clone();
            if !query.as_str().is_empty() {
                state.searching = true;
                state.focus = Focus::Queue;
                return AppAction::Search(query);
            }
            AppAction::NoOp
        },
        KeyCode::Esc => {
            state.focus = Focus::Queue;
            AppAction::NoOp
        },
        KeyCode::Backspace => {
            pop_char(&mut state.search_query);
            AppAction::NoOp
        },
        KeyCode::Char(c) => {
            push_char(&mut state.search_query, c);
            AppAction::NoOp
        },
        _ => AppAction::NoOp,
    }
}

/// The jump, in seconds, for a seek streak.
fn seek_seconds(streak: usize) -> (r: i64)
    ensures
        r == seek_step(streak as nat),
{
    if streak <= 3 {
        5
    } else if streak <= 8 {
        10
    } else if streak <= 15 {
        15
    } else if streak <= 25 {
        30
    } else {
        60
    }
}

fn seek_with_accel(state: &mut AppState, forward: bool) -> (a: AppAction)
    ensures
        seek_key(*old(state), *final(state), forward, a),
{
    let gap = state.frame_count.saturating_sub(state.last_seek_frame);
    if gap < 15 {
        state.seek_streak = state.seek_streak.saturating_add(1);
    } else {
        state.seek_streak = 1;
    }
    state.last_seek_frame = state.frame_count;
    let secs = seek_seconds(state.seek_streak);
    let label = if secs == 5 {
        "5s"
    } else if secs == 10 {
        "10s"
    } else if secs == 15 {
        "15s"
    } else if secs == 30 {
        "30s"
    } else {
        "1m"
    };
    let arrow = if forward {
        ">> "
    } else {
        "<< "
    };
    proof {
        reveal_strlit(">> ");
        reveal_strlit("<< ");
        reveal_strlit(">>");
        reveal_strlit("<<");
        reveal_strlit(" ");
    }
    assert((if forward {
        ">>"@
    } else {
        "<<"@
    }) + " "@ == arrow@);
    state.toast_message = Some(concat(arrow, label));
    state.toast_timer = 15;
    AppAction::Seek(if forward {
        secs
    } else {
        -secs
    })
}

fn handle_popup_key(state: &mut AppState, key: KeyEvent) -> (a: AppAction)
    ensures
        popup_key(*old(state), *final(state), key, a),
{
    match key.code {
        KeyCode::Esc => {
            state.show_playlist_popup = false;
            AppAction::NoOp
        },
        KeyCode::Enter => {
            let name = state.popup_input.clone();
            let desc = state.popup_description.clone();
            state.show_playlist_popup = false;
            if !name.as_str().is_empty() {
                AppAction::CreatePlaylist(name, desc)
            } else {
                AppAction::NoOp
            }
        },
        KeyCode::Backspace => {
            pop_char(&mut state.popup_input);
            AppAction::NoOp
        },
        KeyCode::Char(c) => {
            push_char(&mut state.popup_input, c);
            AppAction::NoOp
        },
        _ => AppAction::NoOp,
    }
}

} // verus!
