//! Character classes and the small string toolkit the parsers and the key
//! handler are built from: trimming over character ranges, and the std
//! `String` mutators that vstd leaves unspecified.
use vstd::prelude::*;

verus! {

/// The Unicode `White_Space` characters: those for which `char::is_whitespace` holds.
pub open spec fn is_whitespace(c: char) -> bool {
    ||| ('\u{9}' <= c && c <= '\u{d}')
    ||| c == ' '
    ||| c == '\u{85}'
    ||| c == '\u{a0}'
    ||| c == '\u{1680}'
    ||| ('\u{2000}' <= c && c <= '\u{200a}')
    ||| c == '\u{2028}'
    ||| c == '\u{2029}'
    ||| c == '\u{202f}'
    ||| c == '\u{205f}'
    ||| c == '\u{3000}'
}

/// `'0'..='9'`: the characters for which `char::is_ascii_digit` holds.
pub open spec fn is_ascii_digit(c: char) -> bool {
    '0' <= c && c <= '9'
}

/// The value of an ASCII digit.
pub open spec fn digit_value(c: char) -> nat
    recommends
        is_ascii_digit(c),
{
    (c as u32 - '0' as u32) as nat
}

/// Unicode whitespace test.
pub fn is_whitespace_char(c: char) -> (r: bool)
    ensures
        r == is_whitespace(c),
{
    ('\u{9}' <= c && c <= '\u{d}') || c == ' ' || c == '\u{85}' || c == '\u{a0}' || c == '\u{1680}'
        || ('\u{2000}' <= c && c <= '\u{200a}') || c == '\u{2028}' || c == '\u{2029}' || c
        == '\u{202f}' || c == '\u{205f}' || c == '\u{3000}'
}

/// ASCII digit test.
pub fn is_ascii_digit_char(c: char) -> (r: bool)
    ensures
        r == is_ascii_digit(c),
{
    '0' <= c && c <= '9'
}

/// The sets of characters that the chapter parser strips or searches for.
#[derive(Debug, Clone, Copy, PartialEq, Eq, Structural)]
pub enum CharClass {
    /// Unicode whitespace.
    Whitespace,
    /// List markers in front of a timestamp (`►▸•*#→➤➜─`) and whitespace.
    Marker,
    /// What a title may start with after its timestamp: `-–|:.` and whitespace.
    TitleLead,
    /// What a title may end with: `-–|` and whitespace.
    TitleTail,
    /// Separators between a title and a trailing timestamp: `-–|`.
    Separator,
    /// Track numbering in front of a title: ASCII digits and `.)#`.
    Numbering,
}

impl CharClass {
    /// Whether `c` belongs to the class.
    pub open spec fn has(self, c: char) -> bool {
        match self {
            CharClass::Whitespace => is_whitespace(c),
            CharClass::Marker => c == '\u{25ba}' || c == '\u{25b8}' || c == '\u{2022}' || c == '*'
                || c == '#' || c == '\u{2192}' || c == '\u{27a4}' || c == '\u{279c}' || c
                == '\u{2500}' || is_whitespace(c),
            CharClass::TitleLead => c == '-' || c == '\u{2013}' || c == '|' || c == ':' || c == '.'
                || is_whitespace(c),
            CharClass::TitleTail => c == '-' || c == '\u{2013}' || c == '|' || is_whitespace(c),
            CharClass::Separator => c == '-' || c == '\u{2013}' || c == '|',
            CharClass::Numbering => is_ascii_digit(c) || c == '.' || c == ')' || c == '#',
        }
    }

    /// Membership test.
    pub fn contains(&self, c: char) -> (r: bool)
        ensures
            r == self.has(c),
    {
        match self {
            CharClass::Whitespace => is_whitespace_char(c),
            CharClass::Marker => c == '\u{25ba}' || c == '\u{25b8}' || c == '\u{2022}' || c == '*'
                || c == '#' || c == '\u{2192}' || c == '\u{27a4}' || c == '\u{279c}' || c
                == '\u{2500}' || is_whitespace_char(c),
            CharClass::TitleLead => c == '-' || c == '\u{2013}' || c == '|' || c == ':' || c == '.'
                || is_whitespace_char(c),
            CharClass::TitleTail => c == '-' || c == '\u{2013}' || c == '|' || is_whitespace_char(
                c,
            ),
            CharClass::Separator => c == '-' || c == '\u{2013}' || c == '|',
            CharClass::Numbering => is_ascii_digit_char(c) || c == '.' || c == ')' || c == '#',
        }
    }
}

/// `s` without its leading characters of class `k` (`trim_start_matches`).
pub open spec fn skip_lead(s: Seq<char>, k: CharClass) -> Seq<char>
    decreases s.len(),
{
    if s.len() > 0 && k.has(s[0]) {
        skip_lead(s.drop_first(), k)
    } else {
        s
    }
}

/// `s` without its trailing characters of class `k` (`trim_end_matches`).
pub open spec fn skip_tail(s: Seq<char>, k: CharClass) -> Seq<char>
    decreases s.len(),
{
    if s.len() > 0 && k.has(s.last()) {
        skip_tail(s.drop_last(), k)
    } else {
        s
    }
}

/// How many leading characters of `s` are of class `k`.
pub open spec fn lead_count(s: Seq<char>, k: CharClass) -> nat
    decreases s.len(),
{
    if s.len() > 0 && k.has(s[0]) {
        1 + lead_count(s.drop_first(), k)
    } else {
        0
    }
}

/// How many characters of `s` stay when its trailing characters of class `k` go.
pub open spec fn tail_keep(s: Seq<char>, k: CharClass) -> nat
    decreases s.len(),
{
    if s.len() > 0 && k.has(s.last()) {
        tail_keep(s.drop_last(), k)
    } else {
        s.len()
    }
}

/// `skip_lead` drops exactly the longest prefix of class `k`.
pub proof fn lemma_skip_lead(s: Seq<char>, k: CharClass)
    ensures
        lead_count(s, k) <= s.len(),
        skip_lead(s, k) == s.skip(lead_count(s, k) as int),
        forall|j: int| 0 <= j < lead_count(s, k) ==> k.has(#[trigger] s[j]),
        lead_count(s, k) < s.len() ==> !k.has(s[lead_count(s, k) as int]),
    decreases s.len(),
{
    if s.len() > 0 && k.has(s[0]) {
        let r = s.drop_first();
        lemma_skip_lead(r, k);
        assert(r.skip(lead_count(r, k) as int) =~= s.skip(lead_count(s, k) as int));
        assert forall|j: int| 0 <= j < lead_count(s, k) implies k.has(#[trigger] s[j]) by {
            if j > 0 {
                assert(s[j] == r[j - 1]);
            }
        }
        if lead_count(s, k) < s.len() {
            assert(s[lead_count(s, k) as int] == r[lead_count(r, k) as int]);
        }
    } else {
        assert(s.skip(0) =~= s);
    }
}

/// `skip_tail` drops exactly the longest suffix of class `k`.
pub proof fn lemma_skip_tail(s: Seq<char>, k: CharClass)
    ensures
        tail_keep(s, k) <= s.len(),
        skip_tail(s, k) == s.take(tail_keep(s, k) as int),
        forall|j: int| tail_keep(s, k) <= j < s.len() ==> k.has(#[trigger] s[j]),
        tail_keep(s, k) > 0 ==> !k.has(s[tail_keep(s, k) - 1]),
    decreases s.len(),
{
    if s.len() > 0 && k.has(s.last()) {
        let r = s.drop_last();
        lemma_skip_tail(r, k);
        assert(r.take(tail_keep(r, k) as int) =~= s.take(tail_keep(s, k) as int));
        assert forall|j: int| tail_keep(s, k) <= j < s.len() implies k.has(#[trigger] s[j]) by {
            if j < s.len() - 1 {
                assert(s[j] == r[j]);
            }
        }
        if tail_keep(s, k) > 0 {
            assert(s[tail_keep(s, k) - 1] == r[tail_keep(r, k) - 1]);
        }
    } else {
        assert(s.take(s.len() as int) =~= s);
    }
}

/// `s` without leading and trailing whitespace (`str::trim`).
pub open spec fn trim(s: Seq<char>) -> Seq<char> {
    skip_tail(skip_lead(s, CharClass::Whitespace), CharClass::Whitespace)
}

/// The index of the last character of class `k` in `s` (`str::rfind`), counted in characters.
pub open spec fn last_of(s: Seq<char>, k: CharClass) -> Option<nat>
    decreases s.len(),
{
    if s.len() == 0 {
        None
    } else if k.has(s.last()) {
        Some((s.len() - 1) as nat)
    } else {
        last_of(s.drop_last(), k)
    }
}

/// Bytes that `c` takes in UTF-8 (`char::len_utf8`).
pub open spec fn utf8_width(c: char) -> nat {
    if (c as u32) < 0x80 {
        1
    } else if (c as u32) < 0x800 {
        2
    } else if (c as u32) < 0x10000 {
        3
    } else {
        4
    }
}

/// Bytes that `s` takes in UTF-8.
pub open spec fn utf8_len(s: Seq<char>) -> nat
    decreases s.len(),
{
    if s.len() == 0 {
        0
    } else {
        utf8_width(s[0]) + utf8_len(s.drop_first())
    }
}

/// UTF-8 width of one character.
pub fn char_utf8_width(c: char) -> (r: usize)
    ensures
        r == utf8_width(c),
        1 <= r <= 4,
{
    let u = c as u32;
    if u < 0x80 {
        1
    } else if u < 0x800 {
        2
    } else if u < 0x10000 {
        3
    } else {
        4
    }
}

/// The first index at or after `lo` (and before `hi`) of a character outside class `k`.
pub fn lead_end(v: &Vec<char>, lo: usize, hi: usize, k: CharClass) -> (r: usize)
    requires
        lo <= hi <= v.len(),
    ensures
        lo <= r <= hi,
        v@.subrange(r as int, hi as int) == skip_lead(v@.subrange(lo as int, hi as int), k),
{
    let mut i = lo;
    while i < hi && k.contains(v[i])
        invariant
            lo <= i <= hi <= v.len(),
            skip_lead(v@.subrange(i as int, hi as int), k) == skip_lead(
                v@.subrange(lo as int, hi as int),
                k,
            ),
        decreases hi - i,
    {
        assert(v@.subrange(i as int, hi as int).drop_first() =~= v@.subrange(
            i + 1,
            hi as int,
        ));
        i = i + 1;
    }
    i
}

/// One past the last index before `hi` (and at or after `lo`) of a character outside class `k`.
pub fn tail_start(v: &Vec<char>, lo: usize, hi: usize, k: CharClass) -> (r: usize)
    requires
        lo <= hi <= v.len(),
    ensures
        lo <= r <= hi,
        v@.subrange(lo as int, r as int) == skip_tail(v@.subrange(lo as int, hi as int), k),
{
    let mut j = hi;
    while j > lo && k.contains(v[j - 1])
        invariant
            lo <= j <= hi <= v.len(),
            skip_tail(v@.subrange(lo as int, j as int), k) == skip_tail(
                v@.subrange(lo as int, hi as int),
                k,
            ),
        decreases j - lo,
    {
        assert(v@.subrange(lo as int, j as int).drop_last() =~= v@.subrange(
            lo as int,
            j - 1,
        ));
        j = j - 1;
    }
    j
}

/// The bounds of `v[lo..hi]` without surrounding whitespace.
pub fn trim_range(v: &Vec<char>, lo: usize, hi: usize) -> (r: (usize, usize))
    requires
        lo <= hi <= v.len(),
    ensures
        lo <= r.0 <= r.1 <= hi,
        v@.subrange(r.0 as int, r.1 as int) == trim(v@.subrange(lo as int, hi as int)),
{
    let a = lead_end(v, lo, hi, CharClass::Whitespace);
    let b = tail_start(v, a, hi, CharClass::Whitespace);
    (a, b)
}

/// The index of the last character of class `k` in `v[lo..hi]`, relative to `lo`.
pub fn last_in_range(v: &Vec<char>, lo: usize, hi: usize, k: CharClass) -> (r: Option<usize>)
    requires
        lo <= hi <= v.len(),
    ensures
        r is None <==> last_of(v@.subrange(lo as int, hi as int), k) is None,
        r matches Some(p) ==> p < hi - lo && last_of(v@.subrange(lo as int, hi as int), k) == Some(
            p as nat,
        ),
{
    let mut j = hi;
    while j > lo
        invariant
            lo <= j <= hi <= v.len(),
            forall|m: int| j <= m < hi ==> !k.has(#[trigger] v@[m]),
            last_of(v@.subrange(lo as int, hi as int), k) == last_of(
                v@.subrange(lo as int, j as int),
                k,
            ),
        decreases j - lo,
    {
        if k.contains(v[j - 1]) {
            return Some(j - 1 - lo);
        }
        assert(v@.subrange(lo as int, j as int).drop_last() =~= v@.subrange(
            lo as int,
            j - 1,
        ));
        j = j - 1;
    }
    None
}

/// The characters of `s`, in order.
pub fn chars_of(s: &str) -> (v: Vec<char>)
    ensures
        v@ == s@,
{
    let mut v: Vec<char> = Vec::new();
    for c in it: s.chars()
        invariant
            v@ == it.seq().take(it.index() as int),
            it.seq() == s@,
    {
        v.push(c);
    }
    v
}

/// Appends `c` to `s` (`String::push`).
#[verifier::external_body]
pub(crate) fn push_char(s: &mut String, c: char)
    ensures
        final(s)@ == old(s)@.push(c),
{
    s.push(c)
}

/// Removes and returns the last character of `s` (`String::pop`).
#[verifier::external_body]
pub(crate) fn pop_char(s: &mut String) -> (r: Option<char>)
    ensures
        old(s)@.len() == 0 ==> r is None && final(s)@ == old(s)@,
        old(s)@.len() > 0 ==> r == Some(old(s)@.last()) && final(s)@ == old(s)@.drop_last(),
{
    s.pop()
}

/// Empties `s` (`String::clear`).
#[verifier::external_body]
pub(crate) fn clear_string(s: &mut String)
    ensures
        final(s)@ == Seq::<char>::empty(),
{
    s.clear()
}

/// A new string holding `v[lo..hi]`.
pub fn string_of_range(v: &Vec<char>, lo: usize, hi: usize) -> (s: String)
    requires
        lo <= hi <= v.len(),
    ensures
        s@ == v@.subrange(lo as int, hi as int),
{
    let mut s = String::new();
    let mut i = lo;
    while i < hi
        invariant
            lo <= i <= hi <= v.len(),
            s@ == v@.subrange(lo as int, i as int),
        decreases hi - i,
    {
        push_char(&mut s, v[i]);
        assert(v@.subrange(lo as int, i + 1) =~= v@.subrange(lo as int, i as int).push(v@[i as int]));
        i = i + 1;
    }
    s
}

/// `a` followed by `b`, as a new string.
pub fn concat(a: &str, b: &str) -> (s: String)
    ensures
        s@ == a@ + b@,
{
    let mut s = a.to_owned();
    s.append(b);
    s
}

/// The decimal digits of `n`, without leading zeros.
pub open spec fn decimal(n: nat) -> Seq<char>
    decreases n,
{
    if n < 10 {
        seq![digit_char(n)]
    } else {
        decimal(n / 10).push(digit_char(n % 10))
    }
}

/// The ASCII digit for `d < 10`.
pub open spec fn digit_char(d: nat) -> char {
    if d == 0 {
        '0'
    } else if d == 1 {
        '1'
    } else if d == 2 {
        '2'
    } else if d == 3 {
        '3'
    } else if d == 4 {
        '4'
    } else if d == 5 {
        '5'
    } else if d == 6 {
        '6'
    } else if d == 7 {
        '7'
    } else if d == 8 {
        '8'
    } else {
        '9'
    }
}

fn digit_char_exec(d: u64) -> (c: char)
    requires
        d < 10,
    ensures
        c == digit_char(d as nat),
{
    if d == 0 {
        '0'
    } else if d == 1 {
        '1'
    } else if d == 2 {
        '2'
    } else if d == 3 {
        '3'
    } else if d == 4 {
        '4'
    } else if d == 5 {
        '5'
    } else if d == 6 {
        '6'
    } else if d == 7 {
        '7'
    } else if d == 8 {
        '8'
    } else {
        '9'
    }
}

/// Appends the decimal digits of `n` to `s` (what `format!("{n}")` writes).
pub fn push_decimal(s: &mut String, n: u64)
    ensures
        final(s)@ == old(s)@ + decimal(n as nat),
    decreases n,
{
    if n < 10 {
        push_char(s, digit_char_exec(n));
        assert(decimal(n as nat) == seq![digit_char(n as nat)]);
    } else {
        push_decimal(s, n / 10);
        push_char(s, digit_char_exec(n % 10));
    }
}

} // verus!

verus! {

/// Whether `a` and `b` hold the same characters (`str` equality).
pub fn str_eq(a: &str, b: &str) -> (r: bool)
    ensures
        r == (a@ == b@),
{
    let x = chars_of(a);
    let y = chars_of(b);
    if x.len() != y.len() {
        return false;
    }
    let mut i: usize = 0;
    while i < x.len()
        invariant
            x.len() == y.len(),
            x@ == a@,
            y@ == b@,
            0 <= i <= x.len(),
            forall|j: int| 0 <= j < i ==> x@[j] == y@[j],
        decreases x.len() - i,
    {
        if x[i] != y[i] {
            assert(a@[i as int] != b@[i as int]);
            return false;
        }
        i = i + 1;
    }
    assert(x@ =~= y@);
    true
}


/// Whether `pat` occurs in `s` (`str::contains`).
pub open spec fn has_infix(s: Seq<char>, pat: Seq<char>) -> bool {
    exists|i: int| 0 <= i && i + pat.len() <= s.len() && #[trigger] s.subrange(i, i + pat.len()) == pat
}

/// Whether `pat` occurs in `s` (see `has_infix`).
pub fn contains_str(s: &str, pat: &str) -> (r: bool)
    ensures
        r == has_infix(s@, pat@),
{
    let x = chars_of(s);
    let p = chars_of(pat);
    if p.len() > x.len() {
        return false;
    }
    let last = x.len() - p.len();
    let mut i: usize = 0;
    while i <= last
        invariant
            x@ == s@,
            p@ == pat@,
            p.len() <= x.len(),
            last == x.len() - p.len(),
            i <= last + 1,
            forall|k: int| 0 <= k < i ==> #[trigger] x@.subrange(k, k + p@.len()) != p@,
        decreases last + 1 - i,
    {
        let mut j: usize = 0;
        let mut same = true;
        while j < p.len()
            invariant
                x@ == s@,
                p@ == pat@,
                i + p.len() <= x.len(),
                j <= p.len(),
                same == (forall|m: int| 0 <= m < j ==> x@[i + m] == p@[m]),
            decreases p.len() - j,
        {
            if x[i + j] != p[j] {
                same = false;
            }
            j = j + 1;
        }
        if same {
            assert(x@.subrange(i as int, i + p@.len()) =~= p@);
            return true;
        }
        assert(x@.subrange(i as int, i + p@.len()) != p@) by {
            let m = choose|m: int| 0 <= m < p.len() && x@[i + m] != p@[m];
            assert(x@.subrange(i as int, i + p@.len())[m] == x@[i + m]);
        }
        i = i + 1;
    }
    false
}

} // verus!
