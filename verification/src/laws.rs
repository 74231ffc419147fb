//! Properties of the library as a whole: what repeated key presses undo,
//! which bounds every operation keeps, and how the parsers' results look.
use vstd::prelude::*;
use crate::chapters::{
    title_before_end, clean_title, chapter_of_line, digit_run, groups, lemma_line_len, line_len, timestamp_at,
    timestamp_before, chapters_in, current_index, spec_parse_chapters, start_times, started_prefix,
    Chapter,
};
use crate::events::{key_effect, list_len, nav_at, nav_down, nav_key, nav_up, queue_key, KeyCode, KeyEvent};
use crate::queue::{
    spec_auto_next, spec_next_index, spec_prev_index, spec_volume_down, spec_volume_up, AutoNext,
};
use crate::state::{AppState, ContentView, EqStyle, Focus, NavSection, Preferences, RepeatMode};
use crate::events::AppAction;
use crate::player::{spec_observed_property, spec_player_event, ObservedProperty, PlayerEvent};
use crate::ytdlp::{spec_min_ytdlp_version, version_before};
use crate::theme::{ThemeIndex, THEME_COUNT};
use crate::text::{
    is_ascii_digit, is_whitespace, last_of, lead_count, lemma_skip_lead, lemma_skip_tail, skip_lead, skip_tail,
    tail_keep, trim, CharClass,
};

verus! {

/// A description never yields exactly one chapter: one timestamp is no tracklist.
pub proof fn law_never_one_chapter(description: Seq<char>)
    ensures
        spec_parse_chapters(description).len() != 1,
{
}

/// Whether a title is non-empty and neither starts nor ends with whitespace.
pub open spec fn bare_title(t: Seq<char>) -> bool {
    t.len() > 0 && !is_whitespace(t[0]) && !is_whitespace(t.last())
}

/// A non-empty trimmed text neither starts nor ends with whitespace.
proof fn lemma_trim_bare(x: Seq<char>)
    ensures
        trim(x).len() > 0 ==> bare_title(trim(x)),
{
    let ws = CharClass::Whitespace;
    lemma_skip_lead(x, ws);
    let y = skip_lead(x, ws);
    lemma_skip_tail(y, ws);
    if trim(x).len() > 0 {
        assert(trim(x)[0] == y[0]);
        assert(y[0] == x[lead_count(x, ws) as int]);
        assert(trim(x).last() == y[tail_keep(y, ws) - 1]);
    }
}

/// The title of a chapter read from a line is a bare title.
proof fn lemma_chapter_title_bare(line: Seq<char>)
    ensures
        chapter_of_line(line) matches Some(c) ==> bare_title(c.1),
{
    match timestamp_at(skip_lead(line, CharClass::Marker)) {
        Some((_, rest)) => {
            lemma_trim_bare(
                skip_tail(skip_lead(trim(rest), CharClass::TitleLead), CharClass::TitleTail),
            );
        },
        None => {},
    }
    let t = trim(line);
    match last_of(t, CharClass::Separator) {
        Some(p) => {
            lemma_trim_bare(skip_lead(trim(t.take(p as int)), CharClass::Numbering));
        },
        None => {},
    }
}

proof fn lemma_chapters_in_titled(s: Seq<char>)
    ensures
        forall|i: int| 0 <= i < chapters_in(s).len() ==> bare_title(#[trigger] chapters_in(s)[i].1),
    decreases s.len(),
{
    if s.len() > 0 {
        let n = crate::chapters::line_len(s);
        let rest = if n < s.len() {
            chapters_in(s.skip((n + 1) as int))
        } else {
            Seq::empty()
        };
        if n < s.len() {
            lemma_chapters_in_titled(s.skip((n + 1) as int));
        }
        let line = crate::text::trim(s.take(n as int));
        if line.len() > 0 {
            lemma_chapter_title_bare(line);
            match chapter_of_line(line) {
                Some(c) => {
                    assert(chapters_in(s) == seq![c] + rest);
                    assert forall|i: int| 0 <= i < chapters_in(s).len() implies bare_title(
                        #[trigger] chapters_in(s)[i].1,
                    ) by {
                        if i > 0 {
                            assert(chapters_in(s)[i] == rest[i - 1]);
                        }
                    }
                },
                None => {},
            }
        }
    }
}

/// Every chapter found has a non-empty title.
pub proof fn law_chapters_have_titles(description: Seq<char>)
    ensures
        forall|i: int|
            0 <= i < spec_parse_chapters(description).len() ==> #[trigger] spec_parse_chapters(
                description,
            )[i].1.len() > 0,
{
    lemma_chapters_in_titled(description);
}

/// Every chapter title found is trimmed: it neither starts nor ends with whitespace.
pub proof fn law_chapter_titles_trimmed(description: Seq<char>)
    ensures
        forall|i: int|
            0 <= i < spec_parse_chapters(description).len() ==> bare_title(
                #[trigger] spec_parse_chapters(description)[i].1,
            ),
{
    lemma_chapters_in_titled(description);
}

proof fn lemma_started_prefix(ts: Seq<u64>, position: u64)
    ensures
        started_prefix(ts, position) <= ts.len(),
        forall|j: int| 0 <= j < started_prefix(ts, position) ==> #[trigger] ts[j] <= position,
        started_prefix(ts, position) < ts.len() ==> ts[started_prefix(ts, position) as int]
            > position,
    decreases ts.len(),
{
    if ts.len() > 0 && ts[0] <= position {
        let rest = ts.drop_first();
        lemma_started_prefix(rest, position);
        assert forall|j: int| 0 <= j < started_prefix(ts, position) implies #[trigger] ts[j]
            <= position by {
            if j > 0 {
                assert(ts[j] == rest[j - 1]);
            }
        }
    }
}

/// In a chapter list sorted by start time whose first chapter has started,
/// the chapter playing at `position` is the last one that has started.
pub proof fn law_current_chapter_is_last_started(chapters: Seq<Chapter>, position: u64)
    requires
        chapters.len() > 0,
        forall|i: int, j: int|
            0 <= i <= j < chapters.len() ==> #[trigger] chapters[i].timestamp
                <= #[trigger] chapters[j].timestamp,
        chapters[0].timestamp <= position,
    ensures
        chapters[current_index(chapters, position)].timestamp <= position,
        forall|j: int|
            current_index(chapters, position) < j < chapters.len()
                ==> #[trigger] chapters[j].timestamp > position,
{
    let ts = start_times(chapters);
    lemma_started_prefix(ts, position);
    let p = started_prefix(ts, position);
    assert(ts[0] == chapters[0].timestamp);
    assert(p > 0);
    assert(ts[p - 1] == chapters[p - 1].timestamp);
    assert forall|j: int| current_index(chapters, position) < j < chapters.len() implies #[trigger] chapters[j].timestamp > position by {
        assert(ts[p as int] == chapters[p as int].timestamp);
        assert(chapters[p as int].timestamp <= chapters[j].timestamp);
    }
}

/// Ctrl+C always asks to quit and changes nothing.
pub proof fn law_interrupt_quits(s: AppState, t: AppState, a: AppAction)
    requires
        key_effect(s, t, KeyEvent { code: KeyCode::Char('c'), ctrl: true }, a),
    ensures
        t == s,
        a is Quit,
{
}

/// Pressing `s` twice leaves shuffle as it was.
pub proof fn law_shuffle_twice(s: AppState, t: AppState, u: AppState, a: AppAction, b: AppAction)
    requires
        !s.show_playlist_popup,
        s.focus != Focus::SearchInput,
        key_effect(s, t, KeyEvent { code: KeyCode::Char('s'), ctrl: false }, a),
        key_effect(t, u, KeyEvent { code: KeyCode::Char('s'), ctrl: false }, b),
    ensures
        u.shuffle == s.shuffle,
{
}

/// Pressing `r` three times leaves the repeat mode as it was.
pub proof fn law_repeat_cycles_in_three(
    s: AppState,
    t: AppState,
    u: AppState,
    w: AppState,
    a: AppAction,
    b: AppAction,
    c: AppAction,
)
    requires
        !s.show_playlist_popup,
        s.focus != Focus::SearchInput,
        key_effect(s, t, KeyEvent { code: KeyCode::Char('r'), ctrl: false }, a),
        key_effect(t, u, KeyEvent { code: KeyCode::Char('r'), ctrl: false }, b),
        key_effect(u, w, KeyEvent { code: KeyCode::Char('r'), ctrl: false }, c),
    ensures
        w.repeat == s.repeat,
{
}

/// In the search box, Backspace takes back the character just typed.
pub proof fn law_backspace_undoes_typing(
    s: AppState,
    t: AppState,
    u: AppState,
    ch: char,
    a: AppAction,
    b: AppAction,
)
    requires
        !s.show_playlist_popup,
        s.focus == Focus::SearchInput,
        key_effect(s, t, KeyEvent { code: KeyCode::Char(ch), ctrl: false }, a),
        key_effect(t, u, KeyEvent { code: KeyCode::Backspace, ctrl: false }, b),
    ensures
        u.search_query@ == s.search_query@,
{
    assert(t.search_query@.drop_last() =~= s.search_query@);
}

/// Moving through a list with j/k/Down/Up keeps the highlight on an entry.
pub proof fn law_list_highlight_stays_in_range(s: AppState, t: AppState, key: KeyEvent, a: AppAction)
    requires
        !s.show_playlist_popup,
        s.focus == Focus::Queue,
        s.content_view != ContentView::Settings,
        !key.ctrl,
        key.code == KeyCode::Char('j') || key.code == KeyCode::Char('k') || key.code
            == KeyCode::Down || key.code == KeyCode::Up,
        s.content_index < list_len(s),
        key_effect(s, t, key, a),
    ensures
        t.content_index < list_len(t),
{
}

/// Moving through the settings with j/k/Down/Up keeps the highlight on a setting.
pub proof fn law_settings_highlight_stays_in_range(
    s: AppState,
    t: AppState,
    key: KeyEvent,
    a: AppAction,
)
    requires
        !s.show_playlist_popup,
        s.focus == Focus::Queue,
        s.content_view == ContentView::Settings,
        !key.ctrl,
        key.code == KeyCode::Char('j') || key.code == KeyCode::Char('k') || key.code
            == KeyCode::Down || key.code == KeyCode::Up,
        s.settings_index < Preferences::KEY_COUNT,
        key_effect(s, t, key, a),
    ensures
        t.settings_index < Preferences::KEY_COUNT,
{
}

/// "Next" never points outside the queue.
pub proof fn law_next_stays_in_queue(
    len: nat,
    current: Option<usize>,
    shuffle: bool,
    repeat: RepeatMode,
    seed: nat,
)
    ensures
        spec_next_index(len, current, shuffle, repeat, seed) matches Some(i) ==> i < len,
{
}

/// Under Repeat All without shuffle, "previous" takes back "next", and
/// "next" takes back "previous".
pub proof fn law_prev_undoes_next(len: nat, i: usize, seed: nat)
    requires
        i < len <= usize::MAX,
    ensures
        spec_next_index(len, Some(i), false, RepeatMode::All, seed) matches Some(j) && spec_prev_index(
            len,
            Some(j as usize),
            RepeatMode::All,
        ) == Some(i as nat),
        spec_prev_index(len, Some(i), RepeatMode::All) matches Some(j) && spec_next_index(
            len,
            Some(j as usize),
            false,
            RepeatMode::All,
            seed,
        ) == Some(i as nat),
{
}

/// Volume up and down keep the volume between 0 and 150, and down takes
/// back up below the ceiling.
pub proof fn law_volume_bounds(v: u32)
    requires
        v <= 150,
    ensures
        spec_volume_up(v) <= 150,
        spec_volume_down(v) <= 150,
        v <= 145 ==> spec_volume_down(spec_volume_up(v)) == v,
{
}

/// The equalizer style comes back after five presses of `e`.
pub proof fn law_eq_style_cycles_in_five(e: EqStyle)
    ensures
        e.spec_next().spec_next().spec_next().spec_next().spec_next() == e,
{
}

/// Cycling the theme as many times as there are themes comes back to it.
pub proof fn law_theme_cycle_returns(themes: Seq<ThemeIndex>)
    requires
        themes.len() == THEME_COUNT + 1,
        themes[0].spec_index() < THEME_COUNT,
        forall|k: int|
            1 <= k <= THEME_COUNT ==> #[trigger] themes[k].spec_index() == (themes[k
                - 1].spec_index() + 1) % (THEME_COUNT as nat),
    ensures
        themes[THEME_COUNT as int].spec_index() == themes[0].spec_index(),
{
    assert(themes[1].spec_index() == (themes[0].spec_index() + 1) % 5);
    assert(themes[2].spec_index() == (themes[1].spec_index() + 1) % 5);
    assert(themes[3].spec_index() == (themes[2].spec_index() + 1) % 5);
    assert(themes[4].spec_index() == (themes[3].spec_index() + 1) % 5);
    assert(themes[5].spec_index() == (themes[4].spec_index() + 1) % 5);
}

/// Whether the navigation highlight is valid: within the playlists (or at
/// the top when there are none) on Playlists, at the top elsewhere.
pub open spec fn nav_highlight_valid(s: AppState) -> bool {
    if s.nav_section == NavSection::Playlists {
        s.nav_sub_index < s.playlists@.len() || s.nav_sub_index == 0
    } else {
        s.nav_sub_index == 0
    }
}

/// On a navigation panel whose highlight is valid, Down then Up, and Up
/// then Down, come back to the state they started from; each asks for
/// nothing (the panel's own keys, as `handle_nav_key` applies them).
pub proof fn law_nav_keys_round_trip(
    s: AppState,
    t: AppState,
    u: AppState,
    first: KeyEvent,
    second: KeyEvent,
    a: AppAction,
    b: AppAction,
)
    requires
        nav_highlight_valid(s),
        (first.code == KeyCode::Down && second.code == KeyCode::Up) || (first.code == KeyCode::Up
            && second.code == KeyCode::Down),
        nav_key(s, t, first, a),
        nav_key(t, u, second, b),
    ensures
        u == s,
        a is NoOp,
        b is NoOp,
{
    // The playlist count fits in a `usize`, so the highlight casts are exact.
    assert(s.playlists@.len() == s.playlists.len());
    assert(nav_at(1) == NavSection::Playlists);
    assert(nav_at(2) == NavSection::History);
    assert(nav_at(3) == NavSection::Settings);
    assert(nav_at(4) == NavSection::Search);
    assert(nav_at(5) == NavSection::Playlists);
    assert(nav_at(6) == NavSection::History);
    assert(nav_at(7) == NavSection::Settings);
    if first.code == KeyCode::Down {
        assert(nav_down(s, t, a) && nav_up(t, u, b));
    } else {
        assert(nav_up(s, t, a) && nav_down(t, u, b));
    }
}

/// The same round trip through `handle_key`, with the navigation panel
/// focused and no popup open.
pub proof fn law_nav_up_down_round_trip(
    s: AppState,
    t: AppState,
    u: AppState,
    first: KeyEvent,
    second: KeyEvent,
    a: AppAction,
    b: AppAction,
)
    requires
        !s.show_playlist_popup,
        s.focus == Focus::Navigation,
        nav_highlight_valid(s),
        !first.ctrl,
        !second.ctrl,
        (first.code == KeyCode::Down && second.code == KeyCode::Up) || (first.code == KeyCode::Up
            && second.code == KeyCode::Down),
        key_effect(s, t, first, a),
        key_effect(t, u, second, b),
    ensures
        u == s,
        a is NoOp,
        b is NoOp,
{
    assert(nav_key(s, t, first, a));
    assert(nav_key(t, u, second, b));
    law_nav_keys_round_trip(s, t, u, first, second, a, b);
}

/// The list highlight after j/Down: one further, but not past the last entry.
pub open spec fn list_index_down(s: AppState) -> usize {
    if s.content_index + 1 < list_len(s) {
        (s.content_index + 1) as usize
    } else {
        (list_len(s) - 1) as usize
    }
}

/// The list highlight after k/Up: one back, but not above the first entry.
pub open spec fn list_index_up(s: AppState) -> usize {
    if s.content_index > 0 {
        (s.content_index - 1) as usize
    } else {
        0
    }
}

/// On a list view with a valid highlight, j/Down moves it one down but not
/// past the last entry, k/Up one up but not above the first, Enter asks to
/// play the highlighted entry; each leaves the rest of the state as it was
/// and the highlight valid (the panel's own keys, as `handle_queue_key`
/// applies them).
pub proof fn law_queue_keys(s: AppState, t: AppState, key: KeyEvent, a: AppAction)
    requires
        s.content_view != ContentView::Settings,
        s.content_index < list_len(s),
        queue_key(s, t, key, a),
    ensures
        key.code == KeyCode::Char('j') || key.code == KeyCode::Down ==> a is NoOp && t == (
        AppState { content_index: list_index_down(s), ..s }),
        key.code == KeyCode::Char('k') || key.code == KeyCode::Up ==> a is NoOp && t == (
        AppState { content_index: list_index_up(s), ..s }),
        key.code == KeyCode::Enter ==> t == s && a == AppAction::PlayTrackIndex(s.content_index),
        t.content_index < list_len(t),
{
}

/// The same moves through `handle_key`, with the content panel focused and
/// no popup open.
pub proof fn law_queue_panel_keys(s: AppState, t: AppState, key: KeyEvent, a: AppAction)
    requires
        !s.show_playlist_popup,
        s.focus == Focus::Queue,
        s.content_view != ContentView::Settings,
        !key.ctrl,
        s.content_index < list_len(s),
        key_effect(s, t, key, a),
    ensures
        key.code == KeyCode::Char('j') || key.code == KeyCode::Down ==> a is NoOp && t == (
        AppState { content_index: list_index_down(s), ..s }),
        key.code == KeyCode::Char('k') || key.code == KeyCode::Up ==> a is NoOp && t == (
        AppState { content_index: list_index_up(s), ..s }),
        key.code == KeyCode::Enter ==> t == s && a == AppAction::PlayTrackIndex(s.content_index),
        t.content_index < list_len(t),
{
    if key.code == KeyCode::Char('j') || key.code == KeyCode::Down || key.code == KeyCode::Char('k')
        || key.code == KeyCode::Up || key.code == KeyCode::Enter {
        assert(queue_key(s, t, key, a));
        law_queue_keys(s, t, key, a);
    }
}

/// On a list view, any key other than j, k, Down, Up and Enter that reaches
/// the panel leaves the state as it was and asks for nothing.
pub proof fn law_queue_panel_ignores_other_keys(
    s: AppState,
    t: AppState,
    key: KeyEvent,
    a: AppAction,
)
    requires
        s.content_view != ContentView::Settings,
        key.code != KeyCode::Char('j'),
        key.code != KeyCode::Char('k'),
        key.code != KeyCode::Down,
        key.code != KeyCode::Up,
        key.code != KeyCode::Enter,
        queue_key(s, t, key, a),
    ensures
        t == s,
        a is NoOp,
{
}

/// Dropping trailing characters of class `k` looks through a tail made only of them.
proof fn lemma_skip_tail_past(a: Seq<char>, b: Seq<char>, k: CharClass)
    requires
        forall|j: int| 0 <= j < b.len() ==> k.has(#[trigger] b[j]),
    ensures
        skip_tail(a + b, k) == skip_tail(a, k),
    decreases b.len(),
{
    if b.len() == 0 {
        assert(a + b =~= a);
    } else {
        assert((a + b).drop_last() =~= a + b.drop_last());
        assert((a + b).last() == b[b.len() - 1]);
        lemma_skip_tail_past(a, b.drop_last(), k);
    }
}

/// `clean_title` in one pass: drop the longest front run of `-–|:.` and
/// whitespace, then the longest back run of `-–|` and whitespace.
proof fn lemma_clean_title_closed(s: Seq<char>)
    ensures
        clean_title(s) == skip_tail(title_rest(s), CharClass::TitleTail),
{
    let ws = CharClass::Whitespace;
    let lead = CharClass::TitleLead;
    let tail = CharClass::TitleTail;
    lemma_skip_lead(s, ws);
    lemma_skip_lead(s, lead);
    let i1 = lead_count(s, ws);
    let big = lead_count(s, lead);
    let y = s.skip(i1 as int);
    lemma_skip_tail(y, ws);
    let m1 = tail_keep(y, ws);
    let y2 = y.take(m1 as int);
    assert(trim(s) == y2);
    if big < i1 {
        assert(ws.has(s[big as int]));
    }
    assert(i1 <= big);
    lemma_skip_lead(y2, lead);
    let lc2 = lead_count(y2, lead);
    let z = skip_lead(y2, lead);
    if big == s.len() {
        if lc2 < y2.len() {
            assert(y2[lc2 as int] == s[(i1 + lc2) as int]);
        }
        assert(z.len() == 0);
        assert(skip_tail(z, tail) == z);
        assert(title_rest(s).len() == 0);
        assert(trim(Seq::<char>::empty()) =~= Seq::<char>::empty());
    } else {
        let d = (big - i1) as nat;
        assert(y[d as int] == s[big as int]);
        if d >= m1 {
            assert(ws.has(y[d as int]));
        }
        assert(d < m1);
        if lc2 < d {
            assert(y2[lc2 as int] == s[(i1 + lc2) as int]);
        }
        if lc2 > d {
            assert(y2[d as int] == s[big as int]);
        }
        assert(lc2 == d);
        let e1 = i1 + m1;
        assert(z =~= s.subrange(big as int, e1 as int));
        let b = s.subrange(e1 as int, s.len() as int);
        assert forall|j: int| 0 <= j < b.len() implies tail.has(#[trigger] b[j]) by {
            assert(b[j] == y[m1 + j]);
            assert(ws.has(y[m1 + j]));
        }
        assert(title_rest(s) =~= z + b);
        lemma_skip_tail_past(z, b, tail);
        lemma_skip_tail(z, tail);
        let w = skip_tail(z, tail);
        if w.len() > 0 {
            assert(w[0] == s[big as int]);
            assert(!ws.has(w[0]));
            assert(w.last() == z[tail_keep(z, tail) - 1]);
            assert(!ws.has(w.last()));
            assert(skip_lead(w, ws) == w);
            assert(skip_tail(w, ws) == w);
        } else {
            assert(trim(w) =~= w);
        }
    }
}

/// How many characters `clean_title` drops in front: the longest run of
/// `-–|:.` and whitespace.
pub open spec fn title_front(s: Seq<char>) -> nat {
    lead_count(s, CharClass::TitleLead)
}

/// What follows the front run that `clean_title` drops.
pub open spec fn title_rest(s: Seq<char>) -> Seq<char> {
    s.skip(title_front(s) as int)
}

/// How much of `title_rest` stays: all but its longest back run of `-–|` and whitespace.
pub open spec fn title_keep(s: Seq<char>) -> nat {
    tail_keep(title_rest(s), CharClass::TitleTail)
}

/// A title after a leading timestamp splits its text into a front run of
/// `-–|:.` and whitespace, the title, and a back run of `-–|` and whitespace,
/// each run as long as it can be; a cleaned title is already clean.
pub proof fn law_clean_title_splits(s: Seq<char>)
    ensures
        s == s.take(title_front(s) as int) + clean_title(s) + title_rest(s).skip(
            title_keep(s) as int,
        ),
        clean_title(s) == title_rest(s).take(title_keep(s) as int),
        forall|j: int| 0 <= j < title_front(s) ==> CharClass::TitleLead.has(#[trigger] s[j]),
        title_front(s) < s.len() ==> !CharClass::TitleLead.has(s[title_front(s) as int]),
        forall|j: int|
            title_keep(s) <= j < title_rest(s).len() ==> CharClass::TitleTail.has(
                #[trigger] title_rest(s)[j],
            ),
        title_keep(s) > 0 ==> !CharClass::TitleTail.has(title_rest(s)[title_keep(s) - 1]),
        clean_title(clean_title(s)) == clean_title(s),
{
    lemma_skip_lead(s, CharClass::TitleLead);
    lemma_skip_tail(title_rest(s), CharClass::TitleTail);
    lemma_clean_title_closed(s);
    let c = clean_title(s);
    assert(s =~= s.take(title_front(s) as int) + c + title_rest(s).skip(title_keep(s) as int));
    lemma_clean_title_closed(c);
    if c.len() > 0 {
        assert(c[0] == s[title_front(s) as int]);
        assert(title_front(c) == 0);
        assert(title_rest(c) =~= c);
        assert(c.last() == title_rest(s)[title_keep(s) - 1]);
        assert(skip_tail(c, CharClass::TitleTail) == c);
    } else {
        assert(title_rest(c) =~= c);
    }
}

/// `line_len` is the index of the first line feed, or the length.
proof fn lemma_line_len_props(s: Seq<char>)
    ensures
        line_len(s) <= s.len(),
        forall|j: int| 0 <= j < line_len(s) ==> #[trigger] s[j] != '\n',
        line_len(s) < s.len() ==> s[line_len(s) as int] == '\n',
    decreases s.len(),
{
    if s.len() > 0 && s[0] != '\n' {
        let r = s.drop_first();
        lemma_line_len_props(r);
        assert forall|j: int| 0 <= j < line_len(s) implies #[trigger] s[j] != '\n' by {
            if j > 0 {
                assert(s[j] == r[j - 1]);
            }
        }
        if line_len(s) < s.len() {
            assert(s[line_len(s) as int] == r[line_len(r) as int]);
        }
    }
}

/// The chapters of two blocks of lines joined by a line feed.
proof fn lemma_chapters_in_concat(a: Seq<char>, b: Seq<char>)
    ensures
        chapters_in(a + seq!['\n'] + b) == chapters_in(a) + chapters_in(b),
    decreases a.len(),
{
    let s = a + seq!['\n'] + b;
    lemma_line_len_props(a);
    let p = line_len(a);
    if p < a.len() {
        assert forall|j: int| 0 <= j < p implies #[trigger] s[j] != '\n' by {
            assert(s[j] == a[j]);
        }
        assert(s[p as int] == a[p as int]);
        lemma_line_len(s, p);
        assert(s.take(p as int) =~= a.take(p as int));
        let a2 = a.skip((p + 1) as int);
        assert(s.skip((p + 1) as int) =~= a2 + seq!['\n'] + b);
        lemma_chapters_in_concat(a2, b);
        let here = if trim(a.take(p as int)).len() == 0 {
            None
        } else {
            chapter_of_line(trim(a.take(p as int)))
        };
        match here {
            Some(c) => {
                assert(seq![c] + (chapters_in(a2) + chapters_in(b)) =~= (seq![c] + chapters_in(
                    a2,
                )) + chapters_in(b));
            },
            None => {},
        }
    } else {
        assert forall|j: int| 0 <= j < a.len() implies #[trigger] s[j] != '\n' by {
            assert(s[j] == a[j]);
        }
        lemma_line_len(s, a.len());
        assert(s.take(a.len() as int) =~= a);
        assert(s.skip((a.len() + 1) as int) =~= b);
        if a.len() == 0 {
            assert(trim(a).len() == 0);
            assert(chapters_in(a) + chapters_in(b) =~= chapters_in(b));
        } else {
            assert(a.take(a.len() as int) =~= a);
            let here = if trim(a).len() == 0 {
                None
            } else {
                chapter_of_line(trim(a))
            };
            match here {
                Some(c) => {
                    assert(chapters_in(a) =~= seq![c]);
                },
                None => {
                    assert(chapters_in(a) =~= Seq::<(u64, Seq<char>)>::empty());
                    assert(chapters_in(a) + chapters_in(b) =~= chapters_in(b));
                },
            }
        }
    }
}

/// Whether `x` is one line with no ASCII digit in it: a blank line, or one
/// that holds no clock time.
pub open spec fn digit_free_line(x: Seq<char>) -> bool {
    forall|j: int| 0 <= j < x.len() ==> #[trigger] x[j] != '\n' && !is_ascii_digit(x[j])
}

/// A text with no ASCII digit holds no clock time in front.
proof fn lemma_no_timestamp_at(t: Seq<char>)
    requires
        forall|j: int| 0 <= j < t.len() ==> !is_ascii_digit(#[trigger] t[j]),
    ensures
        timestamp_at(t) is None,
{
    let u = if t.len() > 0 && t[0] == '[' {
        t.drop_first()
    } else {
        t
    };
    if u.len() > 0 {
        assert(u[0] == t[if t.len() > 0 && t[0] == '[' { 1int } else { 0int }]);
    }
    assert(digit_run(u) == 0);
    assert(groups(u).0.len() == 0);
}

/// A text with no ASCII digit holds no clock time at its end.
proof fn lemma_no_timestamp_before(s: Seq<char>, k: nat)
    requires
        forall|j: int| 0 <= j < s.len() ==> !is_ascii_digit(#[trigger] s[j]),
    ensures
        timestamp_before(s, k) is None,
    decreases k,
{
    if k > 0 && k <= s.len() {
        assert(!is_ascii_digit(s[k - 1]));
        lemma_no_timestamp_before(s, (k - 1) as nat);
    }
}

/// A digit-free line describes no chapter.
proof fn lemma_digit_free_no_chapter(x: Seq<char>)
    requires
        digit_free_line(x),
    ensures
        chapters_in(x) == Seq::<(u64, Seq<char>)>::empty(),
{
    if x.len() > 0 {
        assert forall|j: int| 0 <= j < x.len() implies #[trigger] x[j] != '\n' by {}
        lemma_line_len(x, x.len());
        assert(x.take(x.len() as int) =~= x);
        let ws = CharClass::Whitespace;
        lemma_skip_lead(x, ws);
        let y = skip_lead(x, ws);
        lemma_skip_tail(y, ws);
        let line = trim(x);
        assert forall|j: int| 0 <= j < line.len() implies !is_ascii_digit(#[trigger] line[j]) by {
            assert(line[j] == x[lead_count(x, ws) + j]);
        }
        let mk = CharClass::Marker;
        lemma_skip_lead(line, mk);
        let u = skip_lead(line, mk);
        assert forall|j: int| 0 <= j < u.len() implies !is_ascii_digit(#[trigger] u[j]) by {
            assert(u[j] == line[lead_count(line, mk) + j]);
        }
        lemma_no_timestamp_at(u);
        lemma_no_timestamp_before(line, line.len());
    }
}

/// Chapters come in the order of their lines: the chapters of two blocks of
/// lines joined by a line feed are those of the first block, then those of
/// the second.
pub proof fn law_chapters_keep_line_order(a: Seq<char>, b: Seq<char>)
    ensures
        chapters_in(a + seq!['\n'] + b) == chapters_in(a) + chapters_in(b),
{
    lemma_chapters_in_concat(a, b);
}

/// Adding a blank line, or any line without an ASCII digit, anywhere in a
/// description leaves its chapters as they were.
pub proof fn law_chapters_ignore_digit_free_lines(a: Seq<char>, x: Seq<char>, b: Seq<char>)
    requires
        digit_free_line(x),
    ensures
        spec_parse_chapters(a + seq!['\n'] + x + seq!['\n'] + b) == spec_parse_chapters(
            a + seq!['\n'] + b,
        ),
        spec_parse_chapters(x + seq!['\n'] + b) == spec_parse_chapters(b),
        spec_parse_chapters(a + seq!['\n'] + x) == spec_parse_chapters(a),
{
    lemma_digit_free_no_chapter(x);
    lemma_chapters_in_concat(x, b);
    assert(chapters_in(x) + chapters_in(b) =~= chapters_in(b));
    lemma_chapters_in_concat(a, x);
    assert(chapters_in(a) + chapters_in(x) =~= chapters_in(a));
    lemma_chapters_in_concat(a, x + seq!['\n'] + b);
    assert(a + seq!['\n'] + x + seq!['\n'] + b =~= a + seq!['\n'] + (x + seq!['\n'] + b));
    lemma_chapters_in_concat(a, b);
}

/// Enter on the Search entry of the navigation panel opens the search box:
/// the search input takes the focus and the results view is shown; nothing
/// else changes and no action is asked for.
pub proof fn law_enter_on_search_opens_search_box(s: AppState, t: AppState, a: AppAction)
    requires
        !s.show_playlist_popup,
        s.focus == Focus::Navigation,
        s.nav_section == NavSection::Search,
        key_effect(s, t, KeyEvent { code: KeyCode::Enter, ctrl: false }, a),
    ensures
        t.focus == Focus::SearchInput,
        t.content_view == ContentView::SearchResults,
        t == (AppState { focus: Focus::SearchInput, content_view: ContentView::SearchResults, ..s }),
        a is NoOp,
{
}

/// Without shuffle, "next" from the last entry of a non-empty queue wraps to
/// the first entry under Repeat All and stops (gives nothing) under Repeat
/// Off and Repeat One; from any earlier entry it gives the entry after it,
/// whatever the repeat mode.
pub proof fn law_next_at_queue_end(len: nat, i: usize, repeat: RepeatMode, seed: nat)
    requires
        0 < len,
        i < len,
    ensures
        i + 1 == len ==> spec_next_index(len, Some(i), false, repeat, seed) == (if repeat
            == RepeatMode::All {
            Some(0nat)
        } else {
            None
        }),
        i + 1 == len && repeat != RepeatMode::All ==> spec_next_index(
            len,
            Some(i),
            false,
            repeat,
            seed,
        ) is None,
        i + 1 < len ==> spec_next_index(len, Some(i), false, repeat, seed) == Some((i + 1) as nat),
{
}

/// The order in which yt-dlp versions (year, month, day) are compared is the
/// calendar order: an earlier year comes first whatever the month and day,
/// within a year an earlier month comes first whatever the day, within a
/// month the earlier day; no version comes before itself, and of two
/// different versions exactly one comes first.
pub proof fn law_version_order_is_calendar_order(a: (u32, u32, u32), b: (u32, u32, u32), c: (u32, u32, u32))
    ensures
        a.0 < b.0 ==> version_before(a, b),
        a.0 == b.0 && a.1 < b.1 ==> version_before(a, b),
        a.0 == b.0 && a.1 == b.1 ==> (version_before(a, b) <==> a.2 < b.2),
        !version_before(a, a),
        version_before(a, b) ==> !version_before(b, a),
        a != b ==> version_before(a, b) || version_before(b, a),
        version_before(a, b) && version_before(b, c) ==> version_before(a, c),
{
}

/// A readable yt-dlp version needs an upgrade exactly when it is a release
/// before 2026.08.18 in calendar order: any earlier year, any earlier month
/// of 2026 whatever the day, or an earlier day of August 2026.
pub proof fn law_upgrade_is_before_minimum(v: (u32, u32, u32))
    ensures
        version_before(v, spec_min_ytdlp_version()) <==> (v.0 < 2026 || (v.0 == 2026 && v.1 < 8)
            || (v.0 == 2026 && v.1 == 8 && v.2 < 18)),
        v.0 == 2026 && v.1 < 8 ==> version_before(v, spec_min_ytdlp_version()),
        v != spec_min_ytdlp_version() ==> (version_before(v, spec_min_ytdlp_version()) <==> !version_before(
            spec_min_ytdlp_version(),
            v,
        )),
{
}

/// Each mpv event name the player follows is classified as its own event,
/// and only that name: `pause` is the only name read as a pause, `unpause`
/// the only one read as resuming, `playback-restart` the only restart and
/// `end-file` the only end of file.
pub proof fn law_player_event_names(name: Seq<char>)
    ensures
        spec_player_event(name) == PlayerEvent::Pause <==> name == "pause"@,
        spec_player_event(name) == PlayerEvent::Unpause <==> name == "unpause"@,
        spec_player_event(name) == PlayerEvent::PlaybackRestart <==> name == "playback-restart"@,
        spec_player_event(name) == PlayerEvent::EndFile <==> name == "end-file"@,
{
    reveal_strlit("pause");
    reveal_strlit("unpause");
    reveal_strlit("playback-restart");
    reveal_strlit("end-file");
    // The four names differ in length, so no two are equal.
    assert("pause"@.len() == 5);
    assert("unpause"@.len() == 7);
    assert("end-file"@.len() == 8);
    assert("playback-restart"@.len() == 16);
}

/// Putting characters in front of a text keeps its trailing run of class `k`
/// where some character of the text stays.
proof fn lemma_skip_tail_after_prefix(p: Seq<char>, x: Seq<char>, k: CharClass)
    requires
        skip_tail(x, k).len() > 0,
    ensures
        skip_tail(p + x, k) == p + skip_tail(x, k),
    decreases x.len(),
{
    if x.len() > 0 && k.has(x.last()) {
        assert((p + x).last() == x.last());
        assert((p + x).drop_last() =~= p + x.drop_last());
        lemma_skip_tail_after_prefix(p, x.drop_last(), k);
    } else {
        assert((p + x).last() == x.last());
    }
}

/// The chapters of a single line (no line feed): the chapter its trimmed
/// text describes, if any.
proof fn lemma_chapters_of_one_line(x: Seq<char>)
    requires
        forall|j: int| 0 <= j < x.len() ==> #[trigger] x[j] != '\n',
    ensures
        chapters_in(x) == (if trim(x).len() == 0 {
            Seq::<(u64, Seq<char>)>::empty()
        } else {
            match chapter_of_line(trim(x)) {
                Some(c) => seq![c],
                None => Seq::<(u64, Seq<char>)>::empty(),
            }
        }),
{
    if x.len() > 0 {
        lemma_line_len(x, x.len());
        assert(x.take(x.len() as int) =~= x);
        match chapter_of_line(trim(x)) {
            Some(c) => {
                assert(seq![c] + Seq::<(u64, Seq<char>)>::empty() =~= seq![c]);
            },
            None => {},
        }
    } else {
        assert(trim(x).len() == 0);
    }
}

/// Whether `m` is one of the list markers that may stand in front of a
/// tracklist line: `► ▸ • * # → ➤ ➜ ─`.
pub open spec fn list_marker(m: char) -> bool {
    m == '\u{25ba}' || m == '\u{25b8}' || m == '\u{2022}' || m == '*' || m == '#' || m == '\u{2192}'
        || m == '\u{27a4}' || m == '\u{279c}' || m == '\u{2500}'
}

/// Whether the line `l` (no line feed) starts with a clock time followed by
/// a title, as in `03:15 Outro`.
pub open spec fn timestamped_line(l: Seq<char>) -> bool {
    &&& forall|j: int| 0 <= j < l.len() ==> #[trigger] l[j] != '\n'
    &&& l.len() > 0
    &&& is_ascii_digit(l[0])
    &&& (timestamp_at(trim(l)) matches Some(p) && clean_title(p.1).len() > 0)
}

/// A list marker and a space in front of a tracklist line change nothing:
/// `• 03:15 Outro` gives the chapter that `03:15 Outro` gives, alone or
/// followed by more lines, and a description of such lines parses as the
/// same lines without their markers.
pub proof fn law_list_markers_are_ignored(m: char, l: Seq<char>, rest: Seq<char>)
    requires
        list_marker(m),
        timestamped_line(l),
    ensures
        chapters_in(seq![m, ' '] + l) == chapters_in(l),
        chapters_in(seq![m, ' '] + l).len() == 1,
        chapters_in(seq![m, ' '] + l + seq!['\n'] + rest) == chapters_in(l + seq!['\n'] + rest),
        spec_parse_chapters(seq![m, ' '] + l + seq!['\n'] + rest) == spec_parse_chapters(
            l + seq!['\n'] + rest,
        ),
{
    let ws = CharClass::Whitespace;
    let mk = CharClass::Marker;
    let head = seq![m, ' '];
    let ml = head + l;
    // The trimmed line is the line without its trailing whitespace.
    assert(skip_lead(l, ws) == l);
    lemma_skip_tail(l, ws);
    if tail_keep(l, ws) == 0 {
        assert(ws.has(l[0]));
    }
    let tl = trim(l);
    assert(tl.len() > 0);
    assert(tl[0] == l[0]);
    // With the marker in front, trimming keeps the marker and the space.
    assert(ml[0] == m);
    assert(skip_lead(ml, ws) == ml);
    lemma_skip_tail_after_prefix(head, l, ws);
    assert(trim(ml) == head + tl);
    // Skipping list markers comes back to the same text.
    assert((head + tl).drop_first() =~= seq![' '] + tl);
    assert((seq![' '] + tl).drop_first() =~= tl);
    assert(skip_lead(tl, mk) == tl);
    assert(skip_lead(seq![' '] + tl, mk) == tl);
    assert(skip_lead(head + tl, mk) == tl);
    assert(chapter_of_line(trim(ml)) == chapter_of_line(tl));
    assert forall|j: int| 0 <= j < ml.len() implies #[trigger] ml[j] != '\n' by {
        if j >= 2 {
            assert(ml[j] == l[j - 2]);
        }
    }
    lemma_chapters_of_one_line(ml);
    lemma_chapters_of_one_line(l);
    lemma_chapters_in_concat(ml, rest);
    lemma_chapters_in_concat(l, rest);
}

/// Without shuffle or any current track aside, "previous" from the first
/// entry of a non-empty queue goes to the last entry under Repeat All and
/// stays on the first otherwise; from any later entry it gives the one
/// before it.
pub proof fn law_prev_at_queue_start(len: nat, i: usize, repeat: RepeatMode)
    requires
        0 < len,
        i < len,
    ensures
        i == 0 ==> spec_prev_index(len, Some(i), repeat) == (if repeat == RepeatMode::All {
            Some((len - 1) as nat)
        } else {
            Some(0nat)
        }),
        i > 0 ==> spec_prev_index(len, Some(i), repeat) == Some((i - 1) as nat),
{
}

/// When a track ends: under Repeat One the same queue entry plays again,
/// under Repeat All the queue moves on, and with repeat off it moves on
/// only while a later entry remains.
pub proof fn law_track_end(repeat: RepeatMode, i: usize, len: nat)
    requires
        i < len,
    ensures
        repeat == RepeatMode::One ==> spec_auto_next(repeat, Some(i), len) == AutoNext::Replay(i),
        repeat == RepeatMode::All ==> spec_auto_next(repeat, Some(i), len) == AutoNext::Advance,
        repeat == RepeatMode::Off ==> (spec_auto_next(repeat, Some(i), len) == AutoNext::Advance
            <==> i + 1 < len),
        repeat == RepeatMode::Off && i + 1 == len ==> spec_auto_next(repeat, Some(i), len)
            == AutoNext::Stay,
{
}

/// Enter on History shows the history list from its top and asks for it to
/// be loaded; Enter on Settings shows the settings from the first one and
/// moves the focus to them. Nothing else changes.
pub proof fn law_enter_on_history_and_settings(s: AppState, t: AppState, a: AppAction)
    requires
        !s.show_playlist_popup,
        s.focus == Focus::Navigation,
        key_effect(s, t, KeyEvent { code: KeyCode::Enter, ctrl: false }, a),
    ensures
        s.nav_section == NavSection::History ==> t == (AppState {
            content_view: ContentView::HistoryList,
            content_index: 0,
            ..s
        }) && a is LoadHistory,
        s.nav_section == NavSection::Settings ==> t == (AppState {
            content_view: ContentView::Settings,
            settings_index: 0,
            focus: Focus::Queue,
            ..s
        }) && a is NoOp,
{
}

/// Each property name the player observes is read as its own property, and
/// only that name is.
pub proof fn law_observed_property_names(name: Seq<char>)
    ensures
        spec_observed_property(name) == Some(ObservedProperty::PlaybackTime) <==> name
            == "playback-time"@,
        spec_observed_property(name) == Some(ObservedProperty::Duration) <==> name == "duration"@,
        spec_observed_property(name) == Some(ObservedProperty::Volume) <==> name == "volume"@,
        spec_observed_property(name) == Some(ObservedProperty::SampleRate) <==> name
            == "audio-params/samplerate"@,
        spec_observed_property(name) == Some(ObservedProperty::ChannelCount) <==> name
            == "audio-params/channel-count"@,
        spec_observed_property(name) == Some(ObservedProperty::CodecName) <==> name
            == "audio-codec-name"@,
        spec_observed_property(name) == Some(ObservedProperty::Bitrate) <==> name
            == "audio-bitrate"@,
        spec_observed_property(name) == Some(ObservedProperty::Pause) <==> name == "pause"@,
{
    reveal_strlit("playback-time");
    reveal_strlit("duration");
    reveal_strlit("volume");
    reveal_strlit("audio-params/samplerate");
    reveal_strlit("audio-params/channel-count");
    reveal_strlit("audio-codec-name");
    reveal_strlit("audio-bitrate");
    reveal_strlit("pause");
    // Names of equal length differ in their first character.
    assert("playback-time"@.len() == 13);
    assert("duration"@.len() == 8);
    assert("volume"@.len() == 6);
    assert("audio-params/samplerate"@.len() == 23);
    assert("audio-params/channel-count"@.len() == 26);
    assert("audio-codec-name"@.len() == 16);
    assert("audio-bitrate"@.len() == 13);
    assert("pause"@.len() == 5);
    assert("playback-time"@[0] != "audio-bitrate"@[0]);
}

/// `lead_count` of a text with more after it: the run stops inside the
/// first part, or goes on into the second when the first is all of class `k`.
proof fn lemma_lead_count_append(x: Seq<char>, y: Seq<char>, k: CharClass)
    ensures
        lead_count(x, k) < x.len() ==> lead_count(x + y, k) == lead_count(x, k),
        lead_count(x, k) == x.len() ==> lead_count(x + y, k) == x.len() + lead_count(y, k),
    decreases x.len(),
{
    if x.len() == 0 {
        assert(x + y =~= y);
    } else {
        assert((x + y)[0] == x[0]);
        if k.has(x[0]) {
            assert((x + y).drop_first() =~= x.drop_first() + y);
            lemma_lead_count_append(x.drop_first(), y, k);
        }
    }
}

/// A leading `-`, `–`, `|`, `:`, `.` or whitespace character never counts
/// in a title after a timestamp: `- Intro`, `: Intro` and `Intro` give the
/// same title.
pub proof fn law_clean_title_drops_leading_punctuation(c: char, x: Seq<char>)
    requires
        c == '-' || c == '\u{2013}' || c == '|' || c == ':' || c == '.' || is_whitespace(c),
    ensures
        clean_title(seq![c] + x) == clean_title(x),
{
    lemma_clean_title_closed(seq![c] + x);
    lemma_clean_title_closed(x);
    let y = seq![c] + x;
    assert(y[0] == c);
    assert(CharClass::TitleLead.has(c));
    assert(y.drop_first() =~= x);
    assert(lead_count(y, CharClass::TitleLead) == 1 + lead_count(x, CharClass::TitleLead));
    lemma_skip_lead(x, CharClass::TitleLead);
    assert(title_rest(y) =~= title_rest(x));
}

/// A trailing `-`, `–`, `|` or whitespace character never counts in a title
/// after a timestamp: `Intro -`, `Intro |` and `Intro` give the same title.
pub proof fn law_clean_title_drops_trailing_dashes(c: char, x: Seq<char>)
    requires
        c == '-' || c == '\u{2013}' || c == '|' || is_whitespace(c),
    ensures
        clean_title(x + seq![c]) == clean_title(x),
{
    let lead = CharClass::TitleLead;
    let tail = CharClass::TitleTail;
    let y = x + seq![c];
    lemma_clean_title_closed(y);
    lemma_clean_title_closed(x);
    lemma_skip_lead(x, lead);
    lemma_lead_count_append(x, seq![c], lead);
    if lead_count(x, lead) < x.len() {
        let r = title_rest(x);
        assert(title_rest(y) =~= r + seq![c]);
        assert((r + seq![c]).drop_last() =~= r);
        assert(skip_tail(r + seq![c], tail) == skip_tail(r, tail));
    } else {
        assert(lead_count(seq![c], lead) == 1) by {
            assert(seq![c][0] == c);
            assert(lead.has(c));
            assert(seq![c].drop_first() =~= Seq::<char>::empty());
            assert(lead_count(Seq::<char>::empty(), lead) == 0);
        }
        assert(title_rest(y).len() == 0);
        assert(title_rest(x).len() == 0);
        assert(skip_tail(title_rest(y), tail) =~= skip_tail(title_rest(x), tail));
    }
}

/// `last_of` finds the last character of class `k`.
proof fn lemma_last_of(s: Seq<char>, k: CharClass)
    ensures
        last_of(s, k) matches Some(p) ==> p < s.len() && k.has(s[p as int]) && forall|j: int|
            p < j < s.len() ==> !k.has(#[trigger] s[j]),
        last_of(s, k) is None ==> forall|j: int| 0 <= j < s.len() ==> !k.has(#[trigger] s[j]),
    decreases s.len(),
{
    if s.len() > 0 && !k.has(s.last()) {
        let r = s.drop_last();
        lemma_last_of(r, k);
        match last_of(r, k) {
            Some(p) => {
                assert(s[p as int] == r[p as int]);
                assert forall|j: int| p < j < s.len() implies !k.has(#[trigger] s[j]) by {
                    if j < s.len() - 1 {
                        assert(s[j] == r[j]);
                    }
                }
            },
            None => {
                assert forall|j: int| 0 <= j < s.len() implies !k.has(#[trigger] s[j]) by {
                    if j < s.len() - 1 {
                        assert(s[j] == r[j]);
                    }
                }
            },
        }
    }
}

/// Whether `c` separates a title from a trailing timestamp: `-`, `–` or `|`.
pub open spec fn title_separator(c: char) -> bool {
    c == '-' || c == '\u{2013}' || c == '|'
}

/// A line `Title - 03:22` (or with `–` or `|`) has the title `Title`: the
/// text before the last separator, when the title holds no separator, does
/// not start with track numbering and has no whitespace at its ends, and
/// what follows the separator holds none either.
pub proof fn law_title_before_trailing_timestamp(t: Seq<char>, sep: char, ts: Seq<char>)
    requires
        bare_title(t),
        forall|j: int| 0 <= j < t.len() ==> !title_separator(#[trigger] t[j]),
        !(is_ascii_digit(t[0]) || t[0] == '.' || t[0] == ')' || t[0] == '#'),
        title_separator(sep),
        ts.len() > 0,
        !is_whitespace(ts.last()),
        forall|j: int| 0 <= j < ts.len() ==> !title_separator(#[trigger] ts[j]),
    ensures
        title_before_end(t + seq![' ', sep, ' '] + ts) == t,
{
    let ws = CharClass::Whitespace;
    let sp = CharClass::Separator;
    let line = t + seq![' ', sep, ' '] + ts;
    let p = t.len() + 1;
    assert(line[0] == t[0]);
    assert(line.last() == ts.last());
    assert(skip_lead(line, ws) == line);
    assert(skip_tail(line, ws) == line);
    assert(trim(line) == line);
    lemma_last_of(line, sp);
    assert(line[p as int] == sep);
    assert forall|j: int| p < j < line.len() implies !sp.has(#[trigger] line[j]) by {
        if j > p + 1 {
            assert(line[j] == ts[j - p - 2]);
        }
    }
    assert forall|j: int| 0 <= j < t.len() implies !sp.has(#[trigger] line[j]) by {
        assert(line[j] == t[j]);
    }
    match last_of(line, sp) {
        Some(q) => {
            if q < p {
                assert(!sp.has(line[p as int]));
            }
            assert(q == p);
        },
        None => {
            assert(!sp.has(line[p as int]));
        },
    }
    let before = line.take(p as int);
    assert(before =~= t + seq![' ']);
    assert(before[0] == t[0]);
    assert(skip_lead(before, ws) == before);
    assert(before.drop_last() =~= t);
    assert(skip_tail(t, ws) == t);
    assert(skip_tail(before, ws) == t);
    assert(trim(before) == t);
    assert(skip_lead(t, CharClass::Numbering) == t);
    assert(skip_lead(t, ws) == t);
    assert(trim(t) == t);
}

} // verus!
