//! Timestamp chapters in a video description.
//!
//! Recognised line shapes: `00:00 Title`, `1:23:45 Title`, `00:00 - Title`,
//! `[00:00] Title`, `► 00:00 Title`, `00:00 - Artist - Title`, and a
//! timestamp at the end (`Title - 03:22`).
//!
//! Timestamps are whole seconds; one that does not fit in a `u64` is held as
//! `u64::MAX`.
use vstd::prelude::*;
use crate::text::{
    char_utf8_width, chars_of, digit_value, is_ascii_digit, is_ascii_digit_char, last_in_range,
    last_of, lead_end, skip_lead, skip_tail, string_of_range, tail_start, trim, trim_range,
    utf8_len, CharClass,
};

verus! {

/// One chapter: where it starts, in seconds, and its title.
#[derive(Debug, Clone)]
pub struct Chapter {
    pub timestamp: u64,
    pub title: String,
}

impl View for Chapter {
    type V = (u64, Seq<char>);

    open spec fn view(&self) -> (u64, Seq<char>) {
        (self.timestamp, self.title@)
    }
}

/// The largest `u64` not above `n`: how a count of seconds is stored.
pub open spec fn clamp64(n: nat) -> u64 {
    if n <= u64::MAX {
        n as u64
    } else {
        u64::MAX
    }
}

/// Length of the run of ASCII digits that `s` starts with.
pub open spec fn digit_run(s: Seq<char>) -> nat
    decreases s.len(),
{
    if s.len() > 0 && is_ascii_digit(s[0]) {
        1 + digit_run(s.drop_first())
    } else {
        0
    }
}

/// The number written in decimal by the digits `s`.
pub open spec fn decimal_value(s: Seq<char>) -> nat
    decreases s.len(),
{
    if s.len() == 0 {
        0
    } else {
        decimal_value(s.drop_last()) * 10 + digit_value(s.last())
    }
}

/// The colon-separated numbers that `s` starts with, and how many characters
/// they span (a colon after the last number included).
pub open spec fn groups(s: Seq<char>) -> (Seq<nat>, nat)
    decreases s.len(),
{
    let n = digit_run(s);
    if n == 0 || n > s.len() {
        (Seq::empty(), 0)
    } else {
        let v = decimal_value(s.take(n as int));
        if n < s.len() && s[n as int] == ':' {
            let rest = groups(s.skip((n + 1) as int));
            (seq![v] + rest.0, n + 1 + rest.1)
        } else {
            (seq![v], n)
        }
    }
}

/// A clock time `m:s` or `h:m:s` at the start of `s` (after an optional `[`):
/// its seconds, and the text after it (after an optional `]`).
pub open spec fn timestamp_at(s: Seq<char>) -> Option<(nat, Seq<char>)> {
    let t = if s.len() > 0 && s[0] == '[' {
        s.drop_first()
    } else {
        s
    };
    let g = groups(t);
    if g.0.len() == 2 || g.0.len() == 3 {
        let secs = if g.0.len() == 2 {
            g.0[0] * 60 + g.0[1]
        } else {
            g.0[0] * 3600 + g.0[1] * 60 + g.0[2]
        };
        let c = if g.1 < t.len() && t[g.1 as int] == ']' {
            g.1 + 1
        } else {
            g.1
        };
        Some((secs, t.skip(c as int)))
    } else {
        None
    }
}

/// The clock time that starts at the last ASCII digit among `s[..k]` from
/// which one can be read, considering only digits followed by at least five
/// bytes of UTF-8 (the digit included).
pub open spec fn timestamp_before(s: Seq<char>, k: nat) -> Option<nat>
    decreases k,
{
    if k == 0 || k > s.len() {
        None
    } else {
        let i = k - 1;
        if is_ascii_digit(s[i]) && utf8_len(s.skip(i)) >= 5 && timestamp_at(s.skip(i)) is Some {
            Some(timestamp_at(s.skip(i)).unwrap().0)
        } else {
            timestamp_before(s, i as nat)
        }
    }
}

/// A title after a leading timestamp: trimmed of spaces and of leading `-–|:.`
/// and trailing `-–|`.
pub open spec fn clean_title(s: Seq<char>) -> Seq<char> {
    trim(skip_tail(skip_lead(trim(s), CharClass::TitleLead), CharClass::TitleTail))
}

/// A title before a trailing timestamp: what stands before the last `-–|`,
/// without track numbering in front; empty when there is no separator.
pub open spec fn title_before_end(line: Seq<char>) -> Seq<char> {
    let t = trim(line);
    match last_of(t, CharClass::Separator) {
        Some(p) => trim(skip_lead(trim(t.take(p as int)), CharClass::Numbering)),
        None => Seq::empty(),
    }
}

/// The chapter that a trimmed, non-empty line describes, if any.
pub open spec fn chapter_of_line(line: Seq<char>) -> Option<(u64, Seq<char>)> {
    let lead = match timestamp_at(skip_lead(line, CharClass::Marker)) {
        Some((secs, rest)) => if clean_title(rest).len() > 0 {
            Some((clamp64(secs), clean_title(rest)))
        } else {
            None
        },
        None => None,
    };
    if lead is Some {
        lead
    } else {
        match timestamp_before(line, line.len()) {
            Some(secs) => if title_before_end(line).len() > 0 {
                Some((clamp64(secs), title_before_end(line)))
            } else {
                None
            },
            None => None,
        }
    }
}

/// Number of characters before the first line feed of `s` (all of them if none).
pub open spec fn line_len(s: Seq<char>) -> nat
    decreases s.len(),
{
    if s.len() == 0 || s[0] == '\n' {
        0
    } else {
        1 + line_len(s.drop_first())
    }
}

/// The chapters that the lines of `s` describe, in order.
pub open spec fn chapters_in(s: Seq<char>) -> Seq<(u64, Seq<char>)>
    decreases s.len(),
{
    if s.len() == 0 {
        Seq::empty()
    } else {
        let n = line_len(s);
        let line = trim(s.take(n as int));
        let here = if line.len() == 0 {
            None
        } else {
            chapter_of_line(line)
        };
        let rest = if n < s.len() {
            chapters_in(s.skip((n + 1) as int))
        } else {
            Seq::empty()
        };
        match here {
            Some(c) => seq![c] + rest,
            None => rest,
        }
    }
}

/// The chapter list of a description: the chapters of its lines when there
/// are at least two (one timestamp is no tracklist), otherwise none.
pub open spec fn spec_parse_chapters(d: Seq<char>) -> Seq<(u64, Seq<char>)> {
    if chapters_in(d).len() >= 2 {
        chapters_in(d)
    } else {
        Seq::empty()
    }
}

pub(crate) proof fn lemma_line_len(s: Seq<char>, n: nat)
    requires
        n <= s.len(),
        forall|j: int| 0 <= j < n ==> s[j] != '\n',
        n == s.len() || s[n as int] == '\n',
    ensures
        line_len(s) == n,
    decreases n,
{
    if n > 0 {
        lemma_line_len(s.drop_first(), (n - 1) as nat);
    }
}

proof fn lemma_digit_run(s: Seq<char>, n: nat)
    requires
        n <= s.len(),
        forall|j: int| 0 <= j < n ==> is_ascii_digit(#[trigger] s[j]),
        n == s.len() || !is_ascii_digit(s[n as int]),
    ensures
        digit_run(s) == n,
    decreases n,
{
    if n > 0 {
        lemma_digit_run(s.drop_first(), (n - 1) as nat);
    }
}

proof fn lemma_clamp_step(x: nat, d: nat, acc: u64)
    requires
        acc == clamp64(x),
        d < 10,
    ensures
        (if acc > (u64::MAX - d) / 10 {
            u64::MAX
        } else {
            (acc * 10 + d) as u64
        }) == clamp64(x * 10 + d),
{
    let m = u64::MAX as int;
    if x > m {
        assert(x * 10 + d > m) by (nonlinear_arith)
            requires
                x > m,
                d >= 0,
        ;
        assert(acc > (u64::MAX - d) / 10);
    } else if acc > (u64::MAX - d) / 10 {
        assert(acc * 10 + d > m) by (nonlinear_arith)
            requires
                acc > (m - d) / 10,
                0 <= d < 10,
                m > 100,
        ;
    } else {
        assert(acc * 10 + d <= m) by (nonlinear_arith)
            requires
                acc <= (m - d) / 10,
                0 <= d < 10,
                m > 100,
        ;
    }
}

proof fn lemma_clamp_mul_add(x: nat, y: nat, k: nat)
    requires
        k >= 1,
    ensures
        clamp64((clamp64(x) * k + clamp64(y)) as nat) == clamp64(x * k + y),
{
    let m = u64::MAX as nat;
    if x > m {
        assert(x * k >= x) by (nonlinear_arith)
            requires
                k >= 1,
        ;
        assert(m * k >= m) by (nonlinear_arith)
            requires
                k >= 1,
        ;
    } else if y > m {
        assert(x * k >= 0) by (nonlinear_arith);
    }
}

/// `a * k + b`, or `u64::MAX` if that does not fit.
fn saturating_mul_add(a: u64, k: u64, b: u64) -> (r: u64)
    ensures
        r == clamp64((a * k + b) as nat),
{
    match a.checked_mul(k) {
        Some(p) => match p.checked_add(b) {
            Some(q) => q,
            None => u64::MAX,
        },
        None => {
            assert(a * k + b > u64::MAX) by (nonlinear_arith)
                requires
                    a * k > u64::MAX,
                    b >= 0,
            ;
            u64::MAX
        },
    }
}

/// Reads the run of ASCII digits at `v[pos..hi]`: its value (clamped) and its end.
fn read_number(v: &Vec<char>, pos: usize, hi: usize) -> (r: (u64, usize))
    requires
        pos <= hi <= v.len(),
    ensures
        pos <= r.1 <= hi,
        r.1 - pos == digit_run(v@.subrange(pos as int, hi as int)),
        r.1 == hi || !is_ascii_digit(v@[r.1 as int]),
        r.0 == clamp64(decimal_value(v@.subrange(pos as int, r.1 as int))),
{
    let mut i = pos;
    let mut acc: u64 = 0;
    while i < hi && is_ascii_digit_char(v[i])
        invariant
            pos <= i <= hi <= v.len(),
            forall|j: int| pos <= j < i ==> is_ascii_digit(#[trigger] v@[j]),
            acc == clamp64(decimal_value(v@.subrange(pos as int, i as int))),
        decreases hi - i,
    {
        let d = (v[i] as u32 - '0' as u32) as u64;
        proof {
            let s = v@.subrange(pos as int, i + 1);
            assert(s.drop_last() =~= v@.subrange(pos as int, i as int));
            assert(s.last() == v@[i as int]);
            lemma_clamp_step(decimal_value(v@.subrange(pos as int, i as int)), d as nat, acc);
        }
        acc = if acc > (u64::MAX - d) / 10 {
            u64::MAX
        } else {
            acc * 10 + d
        };
        i = i + 1;
    }
    proof {
        let s = v@.subrange(pos as int, hi as int);
        lemma_digit_run(s, (i - pos) as nat);
    }
    (acc, i)
}

/// The clock time at the start of `v[lo..hi]`: its seconds (clamped) and
/// where the text after it begins.
fn extract_timestamp(v: &Vec<char>, lo: usize, hi: usize) -> (r: Option<(u64, usize)>)
    requires
        lo <= hi <= v.len(),
    ensures
        match timestamp_at(v@.subrange(lo as int, hi as int)) {
            Some((secs, rest)) => r matches Some((s, p)) && s == clamp64(secs) && lo <= p <= hi
                && v@.subrange(p as int, hi as int) == rest,
            None => r is None,
        },
{
    let ghost s = v@.subrange(lo as int, hi as int);
    let t0 = if lo < hi && v[lo] == '[' {
        lo + 1
    } else {
        lo
    };
    let ghost t = v@.subrange(t0 as int, hi as int);
    assert(t =~= (if s.len() > 0 && s[0] == '[' {
        s.drop_first()
    } else {
        s
    }));
    let mut vals: Vec<u64> = Vec::new();
    let ghost mut prefix: Seq<nat> = Seq::empty();
    let mut pos = t0;
    loop
        invariant
            t0 <= pos <= hi <= v.len(),
            t == v@.subrange(t0 as int, hi as int),
            vals@.len() == prefix.len(),
            forall|j: int| 0 <= j < prefix.len() ==> vals@[j] == clamp64(#[trigger] prefix[j]),
            groups(t).0 == prefix + groups(v@.subrange(pos as int, hi as int)).0,
            groups(t).1 == (pos - t0) + groups(v@.subrange(pos as int, hi as int)).1,
        ensures
            t0 <= pos <= hi,
            vals@.len() == prefix.len(),
            forall|j: int| 0 <= j < prefix.len() ==> vals@[j] == clamp64(#[trigger] prefix[j]),
            groups(t).0 == prefix + groups(v@.subrange(pos as int, hi as int)).0,
            groups(t).1 == (pos - t0) + groups(v@.subrange(pos as int, hi as int)).1,
            groups(v@.subrange(pos as int, hi as int)).0.len() == 0,
            groups(v@.subrange(pos as int, hi as int)).1 == 0,
        decreases hi - pos,
    {
        let ghost u = v@.subrange(pos as int, hi as int);
        let (val, end) = read_number(v, pos, hi);
        if end == pos {
            assert(groups(u).0 =~= Seq::<nat>::empty());
            break ;
        }
        assert(u.take((end - pos) as int) =~= v@.subrange(pos as int, end as int));
        let ghost value = decimal_value(v@.subrange(pos as int, end as int));
        vals.push(val);
        proof {
            prefix = prefix.push(value);
        }
        if end < hi && v[end] == ':' {
            assert(u.skip((end - pos) + 1) =~= v@.subrange(end + 1, hi as int));
            assert(groups(t).0 =~= prefix + groups(v@.subrange(end + 1, hi as int)).0);
            pos = end + 1;
        } else {
            assert(groups(u).0 =~= seq![value]);
            assert(groups(t).0 =~= prefix + groups(v@.subrange(end as int, hi as int)).0) by {
                let w = v@.subrange(end as int, hi as int);
                assert(digit_run(w) == 0) by {
                    if w.len() > 0 {
                        assert(w[0] == v@[end as int]);
                    }
                }
            }
            pos = end;
            break ;
        }
    }
    let ghost g = groups(t);
    let ghost w = v@.subrange(pos as int, hi as int);
    assert(g.0 =~= prefix);
    let n = vals.len();
    if n != 2 && n != 3 {
        return None;
    }
    let secs = if n == 2 {
        proof {
            lemma_clamp_mul_add(prefix[0], prefix[1], 60);
        }
        saturating_mul_add(vals[0], 60, vals[1])
    } else {
        let m = saturating_mul_add(vals[0], 60, vals[1]);
        proof {
            lemma_clamp_mul_add(prefix[0], prefix[1], 60);
            lemma_clamp_mul_add(prefix[0] * 60 + prefix[1], prefix[2], 60);
            assert((prefix[0] * 60 + prefix[1]) * 60 + prefix[2] == prefix[0] * 3600 + prefix[1]
                * 60 + prefix[2]) by (nonlinear_arith);
        }
        saturating_mul_add(m, 60, vals[2])
    };
    let after = if pos < hi && v[pos] == ']' {
        pos + 1
    } else {
        pos
    };
    assert(t.skip((after - t0) as int) =~= v@.subrange(after as int, hi as int));
    Some((secs, after))
}

/// The clock time nearest the end of the line `v[lo..hi]`, read from the
/// last position where one can be read (at least five bytes from the end).
fn extract_timestamp_end(v: &Vec<char>, lo: usize, hi: usize) -> (r: Option<u64>)
    requires
        lo <= hi <= v.len(),
    ensures
        r == (match timestamp_before(
            v@.subrange(lo as int, hi as int),
            (hi - lo) as nat,
        ) {
            Some(secs) => Some(clamp64(secs)),
            None => None,
        }),
{
    let ghost s = v@.subrange(lo as int, hi as int);
    let mut k = hi;
    let mut suf: usize = 0;
    assert(v@.subrange(hi as int, hi as int) =~= Seq::<char>::empty());
    while k > lo
        invariant
            lo <= k <= hi <= v.len(),
            s == v@.subrange(lo as int, hi as int),
            suf <= 8,
            suf >= 5 <==> utf8_len(v@.subrange(k as int, hi as int)) >= 5,
            suf < 5 ==> suf == utf8_len(v@.subrange(k as int, hi as int)),
            timestamp_before(s, (hi - lo) as nat) == timestamp_before(s, (k - lo) as nat),
        decreases k - lo,
    {
        let i = k - 1;
        let w = char_utf8_width(v[i]);
        assert(v@.subrange(i as int, hi as int).drop_first() =~= v@.subrange(k as int, hi as int));
        if suf < 5 {
            suf = suf + w;
        }
        assert(s.skip(i - lo) =~= v@.subrange(i as int, hi as int));
        if is_ascii_digit_char(v[i]) && suf >= 5 {
            match extract_timestamp(v, i, hi) {
                Some((secs, _)) => {
                    return Some(secs);
                },
                None => {},
            }
        }
        k = i;
    }
    None
}

/// The bounds of the title after a leading timestamp, in `v[lo..hi]`.
fn clean_title_range(v: &Vec<char>, lo: usize, hi: usize) -> (r: (usize, usize))
    requires
        lo <= hi <= v.len(),
    ensures
        lo <= r.0 <= r.1 <= hi,
        v@.subrange(r.0 as int, r.1 as int) == clean_title(v@.subrange(lo as int, hi as int)),
{
    let (a, b) = trim_range(v, lo, hi);
    let c = lead_end(v, a, b, CharClass::TitleLead);
    let d = tail_start(v, c, b, CharClass::TitleTail);
    trim_range(v, c, d)
}

/// The bounds of the title before a trailing timestamp, in the line `v[lo..hi]`.
fn title_before_end_range(v: &Vec<char>, lo: usize, hi: usize) -> (r: (usize, usize))
    requires
        lo <= hi <= v.len(),
    ensures
        lo <= r.0 <= r.1 <= hi,
        v@.subrange(r.0 as int, r.1 as int) == title_before_end(
            v@.subrange(lo as int, hi as int),
        ),
{
    let (a, b) = trim_range(v, lo, hi);
    match last_in_range(v, a, b, CharClass::Separator) {
        None => {
            assert(v@.subrange(a as int, a as int) =~= Seq::<char>::empty());
            (a, a)
        },
        Some(p) => {
            assert(v@.subrange(a as int, b as int).take(p as int) =~= v@.subrange(
                a as int,
                a + p,
            ));
            let (c, d) = trim_range(v, a, a + p);
            let e = lead_end(v, c, d, CharClass::Numbering);
            trim_range(v, e, d)
        },
    }
}

/// The chapter that the trimmed, non-empty line `v[lo..hi]` describes, if any.
fn parse_line(v: &Vec<char>, lo: usize, hi: usize) -> (r: Option<Chapter>)
    requires
        lo <= hi <= v.len(),
    ensures
        match chapter_of_line(v@.subrange(lo as int, hi as int)) {
            Some(c) => r matches Some(ch) && ch@ == c,
            None => r is None,
        },
{
    let ghost line = v@.subrange(lo as int, hi as int);
    let m = lead_end(v, lo, hi, CharClass::Marker);
    match extract_timestamp(v, m, hi) {
        Some((secs, rest)) => {
            let (a, b) = clean_title_range(v, rest, hi);
            if a < b {
                let title = string_of_range(v, a, b);
                return Some(Chapter { timestamp: secs, title });
            }
        },
        None => {},
    }
    match extract_timestamp_end(v, lo, hi) {
        Some(secs) => {
            let (a, b) = title_before_end_range(v, lo, hi);
            if a < b {
                let title = string_of_range(v, a, b);
                Some(Chapter { timestamp: secs, title })
            } else {
                None
            }
        },
        None => None,
    }
}

/// Parses the chapters of a video description: one per line that starts
/// (after list markers) or ends with a clock time and has a title. Returns no
/// chapters unless at least two are found.
pub fn parse_chapters(description: &str) -> (chapters: Vec<Chapter>)
    ensures
        chapters@.map_values(|c: Chapter| c@) == spec_parse_chapters(description@),
{
    let v = chars_of(description);
    let len = v.len();
    let mut out: Vec<Chapter> = Vec::new();
    let mut pos: usize = 0;
    assert(v@.skip(0) =~= v@);
    assert(out@.map_values(|c: Chapter| c@) + chapters_in(v@) =~= chapters_in(v@));
    while pos < len
        invariant
            pos <= len == v.len(),
            v@ == description@,
            out@.map_values(|c: Chapter| c@) + chapters_in(v@.skip(pos as int)) == chapters_in(
                v@,
            ),
        decreases len - pos,
    {
        let ghost rest = v@.skip(pos as int);
        let mut e = pos;
        while e < len && v[e] != '\n'
            invariant
                pos <= e <= len == v.len(),
                forall|j: int| pos <= j < e ==> v@[j] != '\n',
            decreases len - e,
        {
            e = e + 1;
        }
        proof {
            lemma_line_len(rest, (e - pos) as nat);
            assert(rest.take((e - pos) as int) =~= v@.subrange(pos as int, e as int));
        }
        let (a, b) = trim_range(&v, pos, e);
        let ghost prev = out@.map_values(|c: Chapter| c@);
        if a < b {
            match parse_line(&v, a, b) {
                Some(ch) => {
                    out.push(ch);
                    assert(out@.map_values(|c: Chapter| c@) =~= prev.push(ch@));
                },
                None => {},
            }
        }
        if e < len {
            assert(rest.skip((e - pos) + 1) =~= v@.skip(e + 1));
            pos = e + 1;
        } else {
            assert(v@.skip(len as int) =~= Seq::<char>::empty());
            pos = len;
        }
        assert(out@.map_values(|c: Chapter| c@) + chapters_in(v@.skip(pos as int)) =~= prev
            + chapters_in(rest));
    }
    assert(v@.skip(pos as int) =~= Seq::<char>::empty());
    assert(out@.map_values(|c: Chapter| c@) =~= chapters_in(v@));
    if out.len() >= 2 {
        out
    } else {
        Vec::new()
    }
}

/// Number of leading entries of `ts` that are at most `position`.
pub open spec fn started_prefix(ts: Seq<u64>, position: u64) -> nat
    decreases ts.len(),
{
    if ts.len() > 0 && ts[0] <= position {
        1 + started_prefix(ts.drop_first(), position)
    } else {
        0
    }
}

/// The start times of `chapters`.
pub open spec fn start_times(chapters: Seq<Chapter>) -> Seq<u64> {
    chapters.map_values(|c: Chapter| c.timestamp)
}

/// Index of the chapter playing at `position`: the last one of the leading
/// run of chapters that have started, or the first if none has.
pub open spec fn current_index(chapters: Seq<Chapter>, position: u64) -> int {
    let p = started_prefix(start_times(chapters), position);
    if p == 0 {
        0
    } else {
        p - 1
    }
}

proof fn lemma_started_prefix_bound(ts: Seq<u64>, position: u64)
    ensures
        started_prefix(ts, position) <= ts.len(),
    decreases ts.len(),
{
    if ts.len() > 0 && ts[0] <= position {
        lemma_started_prefix_bound(ts.drop_first(), position);
    }
}

/// The chapter playing at `position` seconds; `None` only when there are no chapters.
pub fn current_chapter(chapters: &[Chapter], position: u64) -> (r: Option<&Chapter>)
    ensures
        chapters@.len() == 0 ==> r is None,
        chapters@.len() > 0 ==> (r matches Some(c) && *c == chapters@[current_index(
            chapters@,
            position,
        )]),
{
    if chapters.len() == 0 {
        return None;
    }
    let ghost ts = start_times(chapters@);
    let mut idx: usize = 0;
    let mut i: usize = 0;
    while i < chapters.len() && chapters[i].timestamp <= position
        invariant
            0 <= i <= chapters@.len(),
            ts == start_times(chapters@),
            idx < chapters@.len(),
            forall|j: int| 0 <= j < i ==> #[trigger] chapters@[j].timestamp <= position,
            i == 0 ==> idx == 0,
            i > 0 ==> idx == i - 1,
        decreases chapters@.len() - i,
    {
        idx = i;
        i = i + 1;
    }
    proof {
        lemma_prefix_exact(ts, position, i as nat);
    }
    Some(&chapters[idx])
}

proof fn lemma_prefix_exact(ts: Seq<u64>, position: u64, i: nat)
    requires
        i <= ts.len(),
        forall|j: int| 0 <= j < i ==> #[trigger] ts[j] <= position,
        i == ts.len() || ts[i as int] > position,
    ensures
        started_prefix(ts, position) == i,
    decreases i,
{
    if i > 0 {
        lemma_prefix_exact(ts.drop_first(), position, (i - 1) as nat);
    }
}

} // verus!
