//! What the library makes of yt-dlp's output: tracks from its JSON records,
//! the audio URL it prints, the search argument it is given, and its version.
use vstd::prelude::*;
use crate::models::{clone_opt_string, Track};
use crate::text::{
    chars_of, concat, decimal, is_ascii_digit, is_ascii_digit_char, push_char, push_decimal,
    string_of_range, trim, trim_range,
};
use crate::chapters::decimal_value;

verus! {

/// One entry of the `thumbnails` list of a yt-dlp record.
#[derive(Debug)]
pub struct ThumbnailEntry {
    pub url: Option<String>,
    pub width: Option<u32>,
    pub height: Option<u32>,
}

/// The fields of a yt-dlp JSON record that the player reads. Durations are
/// whole milliseconds; bitrate (kbps) and sample rate (Hz) are whole numbers.
#[derive(Debug)]
pub struct YtDlpResult {
    pub id: Option<String>,
    pub title: Option<String>,
    pub uploader: Option<String>,
    pub channel: Option<String>,
    pub duration_ms: Option<u64>,
    pub thumbnail: Option<String>,
    pub thumbnails: Option<Vec<ThumbnailEntry>>,
    pub url: Option<String>,
    pub webpage_url: Option<String>,
    pub acodec: Option<String>,
    pub abr: Option<u32>,
    pub asr: Option<u32>,
    pub audio_channels: Option<u32>,
    pub filesize: Option<u64>,
    pub filesize_approx: Option<u64>,
    pub description: Option<String>,
}

/// The characters of an optional string, or the empty sequence.
pub open spec fn opt_chars(s: Option<String>) -> Seq<char> {
    match s {
        Some(x) => x@,
        None => Seq::empty(),
    }
}

/// The thumbnail URL to show: `thumbnail` when non-empty, else the URL of
/// the last `thumbnails` entry (usually the largest), else empty.
pub open spec fn spec_best_thumbnail(r: YtDlpResult) -> Seq<char> {
    if r.thumbnail is Some && r.thumbnail.unwrap()@.len() > 0 {
        r.thumbnail.unwrap()@
    } else if r.thumbnails is Some && r.thumbnails.unwrap()@.len() > 0 {
        opt_chars(r.thumbnails.unwrap()@.last().url)
    } else {
        Seq::empty()
    }
}

/// The watch page of a video id.
pub open spec fn watch_url(id: Seq<char>) -> Seq<char> {
    "https://www.youtube.com/watch?v="@ + id
}

/// The parts of a track that a yt-dlp record determines alike for search
/// results and full metadata: id, title and artist (`Unknown` when missing;
/// the artist is the uploader, else the channel), duration (0 when missing),
/// thumbnail, page URL (the watch URL of the id when missing), description.
pub open spec fn record_track_base(r: YtDlpResult, t: Track) -> bool {
    &&& t.id is None
    &&& t.youtube_id@ == opt_chars(r.id)
    &&& t.title@ == (if r.title is Some {
        r.title.unwrap()@
    } else {
        "Unknown"@
    })
    &&& t.artist@ == (if r.uploader is Some {
        r.uploader.unwrap()@
    } else if r.channel is Some {
        r.channel.unwrap()@
    } else {
        "Unknown"@
    })
    &&& t.duration_ms == (if r.duration_ms is Some {
        r.duration_ms.unwrap()
    } else {
        0
    })
    &&& t.thumbnail_url@ == spec_best_thumbnail(r)
    &&& t.youtube_url@ == (if r.webpage_url is Some {
        r.webpage_url.unwrap()@
    } else {
        watch_url(opt_chars(r.id))
    })
    &&& t.description == r.description
}

impl YtDlpResult {
    /// The thumbnail URL to show (see `spec_best_thumbnail`).
    pub fn best_thumbnail(&self) -> (r: String)
        ensures
            r@ == spec_best_thumbnail(*self),
    {
        if let Some(url) = &self.thumbnail {
            if !url.as_str().is_empty() {
                return url.clone();
            }
        }
        if let Some(thumbs) = &self.thumbnails {
            if thumbs.len() > 0 {
                if let Some(url) = &thumbs[thumbs.len() - 1].url {
                    return url.clone();
                }
                return String::new();
            }
        }
        String::new()
    }
}

fn or_unknown(s: &Option<String>) -> (r: String)
    ensures
        r@ == (if s is Some {
            s.unwrap()@
        } else {
            "Unknown"@
        }),
{
    match s {
        Some(x) => x.clone(),
        None => String::from_str("Unknown"),
    }
}

/// The track that a record describes, without stream details.
fn base_track(r: &YtDlpResult) -> (t: Track)
    ensures
        record_track_base(*r, t),
        t.codec is None,
        t.bitrate is None,
        t.sample_rate is None,
        t.channels is None,
        t.filesize is None,
{
    let thumbnail_url = r.best_thumbnail();
    let youtube_id = match &r.id {
        Some(x) => x.clone(),
        None => String::new(),
    };
    let title = or_unknown(&r.title);
    let artist = match &r.uploader {
        Some(u) => u.clone(),
        None => or_unknown(&r.channel),
    };
    let duration_ms = match r.duration_ms {
        Some(d) => d,
        None => 0,
    };
    let youtube_url = match &r.webpage_url {
        Some(u) => u.clone(),
        None => concat("https://www.youtube.com/watch?v=", youtube_id.as_str()),
    };
    Track {
        id: None,
        youtube_id,
        title,
        artist,
        duration_ms,
        thumbnail_url,
        youtube_url,
        codec: None,
        bitrate: None,
        sample_rate: None,
        channels: None,
        filesize: None,
        description: clone_opt_string(&r.description),
    }
}

/// The track a flat search record describes; stream details are unknown.
pub fn track_from_search_result(r: &YtDlpResult) -> (t: Track)
    ensures
        record_track_base(*r, t),
        t.codec is None,
        t.bitrate is None,
        t.sample_rate is None,
        t.channels is None,
        t.filesize is None,
{
    base_track(r)
}

/// The track a full metadata record describes, with its stream details:
/// codec, bitrate, sample rate, channels, and the exact file size or else
/// the approximate one.
pub fn track_from_metadata(r: &YtDlpResult) -> (t: Track)
    ensures
        record_track_base(*r, t),
        t.codec == r.acodec,
        t.bitrate == r.abr,
        t.sample_rate == r.asr,
        t.channels == r.audio_channels,
        t.filesize == (if r.filesize is Some {
            r.filesize
        } else {
            r.filesize_approx
        }),
{
    let mut t = base_track(r);
    t.codec = clone_opt_string(&r.acodec);
    t.bitrate = r.abr;
    t.sample_rate = r.asr;
    t.channels = r.audio_channels;
    t.filesize = if r.filesize.is_some() {
        r.filesize
    } else {
        r.filesize_approx
    };
    t
}

/// yt-dlp's search term for the first `max_results` results of `query`.
pub open spec fn spec_search_term(query: Seq<char>, max_results: nat) -> Seq<char> {
    "ytsearch"@ + decimal(max_results) + ":"@ + query
}

/// The search term handed to yt-dlp: `ytsearch{max_results}:{query}`.
pub fn search_term(query: &str, max_results: usize) -> (r: String)
    ensures
        r@ == spec_search_term(query@, max_results as nat),
{
    let mut s = String::from_str("ytsearch");
    push_decimal(&mut s, max_results as u64);
    push_char(&mut s, ':');
    s.append(query);
    proof {
        reveal_strlit("ytsearch");
        reveal_strlit(":");
    }
    assert(s@ =~= spec_search_term(query@, max_results as nat));
    s
}

/// The stream URL that `yt-dlp --get-url` printed: its output trimmed, when
/// not empty.
pub fn audio_url_from_output(stdout: &str) -> (r: Option<String>)
    ensures
        trim(stdout@).len() == 0 ==> r is None,
        trim(stdout@).len() > 0 ==> (r matches Some(u) && u@ == trim(stdout@)),
{
    let v = chars_of(stdout);
    let (a, b) = trim_range(&v, 0, v.len());
    assert(v@.subrange(0, v@.len() as int) =~= v@);
    if a < b {
        Some(string_of_range(&v, a, b))
    } else {
        None
    }
}

/// The oldest yt-dlp release that still plays YouTube audio.
pub open spec fn spec_min_ytdlp_version() -> (u32, u32, u32) {
    (2026, 8, 18)
}

/// The oldest yt-dlp release (year, month, day) that still plays YouTube audio:
/// older builds get HTTP 403 on the stream URLs they resolve.
pub fn min_ytdlp_version() -> (r: (u32, u32, u32))
    ensures
        r == spec_min_ytdlp_version(),
{
    (2026, 8, 18)
}

/// The value of a non-empty run of ASCII digits, when it fits in a `u32`.
pub open spec fn spec_digits_u32(d: Seq<char>) -> Option<u32> {
    if d.len() > 0 && (forall|i: int| 0 <= i < d.len() ==> is_ascii_digit(#[trigger] d[i]))
        && decimal_value(d) <= u32::MAX {
        Some(decimal_value(d) as u32)
    } else {
        None
    }
}

/// What `u32::from_str` accepts: an optional `+` and at least one ASCII
/// digit, nothing else, with a value that fits in a `u32`.
pub open spec fn spec_parse_u32(s: Seq<char>) -> Option<u32> {
    if s.len() > 0 && s[0] == '+' {
        spec_digits_u32(s.drop_first())
    } else {
        spec_digits_u32(s)
    }
}

/// Index of the first `.` in `s`, or its length.
pub open spec fn dot_pos(s: Seq<char>) -> nat
    decreases s.len(),
{
    if s.len() == 0 || s[0] == '.' {
        0
    } else {
        1 + dot_pos(s.drop_first())
    }
}

/// The text of `s` before its first `.`.
pub open spec fn first_field(s: Seq<char>) -> Seq<char> {
    s.take(dot_pos(s) as int)
}

/// The text of `s` after its first `.`.
pub open spec fn after_dot(s: Seq<char>) -> Seq<char> {
    s.skip(dot_pos(s) as int + 1)
}

/// yt-dlp's date-based version (`2026.08.18`, maybe followed by `.122307`):
/// the first three dot-separated fields of the trimmed text, as numbers.
pub open spec fn spec_parse_ytdlp_version(raw: Seq<char>) -> Option<(u32, u32, u32)> {
    let s = trim(raw);
    let r1 = after_dot(s);
    let r2 = after_dot(r1);
    let y = spec_parse_u32(first_field(s));
    let m = spec_parse_u32(first_field(r1));
    let d = spec_parse_u32(first_field(r2));
    if dot_pos(s) < s.len() && dot_pos(r1) < r1.len() && y is Some && m is Some && d is Some {
        Some((y.unwrap(), m.unwrap(), d.unwrap()))
    } else {
        None
    }
}

proof fn lemma_decimal_value_push(s: Seq<char>, c: char)
    ensures
        decimal_value(s.push(c)) == decimal_value(s) * 10 + crate::text::digit_value(c),
{
    assert(s.push(c).drop_last() =~= s);
}

/// The value of a run of digits is at least the value of any prefix of it.
proof fn lemma_prefix_bounds_value(d: Seq<char>, k: nat)
    requires
        k <= d.len(),
        forall|j: int| 0 <= j < d.len() ==> is_ascii_digit(#[trigger] d[j]),
    ensures
        decimal_value(d) >= decimal_value(d.take(k as int)),
    decreases d.len() - k,
{
    if k < d.len() {
        lemma_prefix_bounds_value(d, k + 1);
        assert(d.take((k + 1) as int) =~= d.take(k as int).push(d[k as int]));
        lemma_decimal_value_push(d.take(k as int), d[k as int]);
    } else {
        assert(d.take(k as int) =~= d);
    }
}

/// The value of the digits `v[lo..hi]` (see `spec_digits_u32`).
fn digits_u32(v: &Vec<char>, lo: usize, hi: usize) -> (r: Option<u32>)
    requires
        lo <= hi <= v.len(),
    ensures
        r == spec_digits_u32(v@.subrange(lo as int, hi as int)),
{
    let ghost d = v@.subrange(lo as int, hi as int);
    if lo == hi {
        return None;
    }
    let mut acc: u64 = 0;
    let mut i = lo;
    while i < hi
        invariant
            lo <= i <= hi <= v.len(),
            d == v@.subrange(lo as int, hi as int),
            forall|j: int| lo <= j < i ==> is_ascii_digit(#[trigger] v@[j]),
            acc == decimal_value(v@.subrange(lo as int, i as int)),
            acc <= u32::MAX,
        decreases hi - i,
    {
        let c = v[i];
        if !is_ascii_digit_char(c) {
            assert(d[i - lo] == c);
            return None;
        }
        let dv = (c as u32 - '0' as u32) as u64;
        proof {
            assert(v@.subrange(lo as int, i + 1) =~= v@.subrange(lo as int, i as int).push(c));
            lemma_decimal_value_push(v@.subrange(lo as int, i as int), c);
        }
        acc = acc * 10 + dv;
        if acc > 0xffff_ffff {
            proof {
                assert(d.take(i + 1 - lo) =~= v@.subrange(lo as int, i + 1));
                if forall|j: int| 0 <= j < d.len() ==> is_ascii_digit(#[trigger] d[j]) {
                    lemma_prefix_bounds_value(d, (i + 1 - lo) as nat);
                }
            }
            return None;
        }
        i = i + 1;
    }
    assert(v@.subrange(lo as int, i as int) =~= d);
    Some(acc as u32)
}

/// Parses `v[lo..hi]` as `u32::from_str` does.
fn parse_u32_range(v: &Vec<char>, lo: usize, hi: usize) -> (r: Option<u32>)
    requires
        lo <= hi <= v.len(),
    ensures
        r == spec_parse_u32(v@.subrange(lo as int, hi as int)),
{
    if lo < hi && v[lo] == '+' {
        assert(v@.subrange(lo as int, hi as int).drop_first() =~= v@.subrange(lo + 1, hi as int));
        digits_u32(v, lo + 1, hi)
    } else {
        digits_u32(v, lo, hi)
    }
}

proof fn lemma_dot_pos(s: Seq<char>, n: nat)
    requires
        n <= s.len(),
        forall|j: int| 0 <= j < n ==> s[j] != '.',
        n == s.len() || s[n as int] == '.',
    ensures
        dot_pos(s) == n,
    decreases n,
{
    if n > 0 {
        lemma_dot_pos(s.drop_first(), (n - 1) as nat);
    }
}

/// The end of the first field of `v[lo..hi]` (the index of its first `.`, or `hi`).
fn field_end(v: &Vec<char>, lo: usize, hi: usize) -> (r: usize)
    requires
        lo <= hi <= v.len(),
    ensures
        lo <= r <= hi,
        r - lo == dot_pos(v@.subrange(lo as int, hi as int)),
        v@.subrange(lo as int, r as int) == first_field(v@.subrange(lo as int, hi as int)),
        r < hi ==> v@.subrange(r + 1, hi as int) == after_dot(v@.subrange(lo as int, hi as int)),
{
    let mut i = lo;
    while i < hi && v[i] != '.'
        invariant
            lo <= i <= hi <= v.len(),
            forall|j: int| lo <= j < i ==> v@[j] != '.',
        decreases hi - i,
    {
        i = i + 1;
    }
    proof {
        let s = v@.subrange(lo as int, hi as int);
        lemma_dot_pos(s, (i - lo) as nat);
        assert(s.take((i - lo) as int) =~= v@.subrange(lo as int, i as int));
        if i < hi {
            assert(s.skip((i - lo) + 1) =~= v@.subrange(i + 1, hi as int));
        }
    }
    i
}

/// Parses yt-dlp's date-based version (see `spec_parse_ytdlp_version`).
pub fn parse_ytdlp_version(raw: &str) -> (r: Option<(u32, u32, u32)>)
    ensures
        r == spec_parse_ytdlp_version(raw@),
{
    let v = chars_of(raw);
    let (a, b) = trim_range(&v, 0, v.len());
    assert(v@.subrange(0, v@.len() as int) =~= raw@);
    let e0 = field_end(&v, a, b);
    if e0 >= b {
        return None;
    }
    let e1 = field_end(&v, e0 + 1, b);
    if e1 >= b {
        return None;
    }
    let e2 = field_end(&v, e1 + 1, b);
    let year = parse_u32_range(&v, a, e0);
    let month = parse_u32_range(&v, e0 + 1, e1);
    let day = parse_u32_range(&v, e1 + 1, e2);
    match (year, month, day) {
        (Some(y), Some(m), Some(d)) => Some((y, m, d)),
        _ => None,
    }
}

/// Lexicographic `<` on (year, month, day).
pub open spec fn version_before(a: (u32, u32, u32), b: (u32, u32, u32)) -> bool {
    a.0 < b.0 || (a.0 == b.0 && (a.1 < b.1 || (a.1 == b.1 && a.2 < b.2)))
}

/// Whether the version that `yt-dlp --version` printed is readable and
/// older than the oldest release that still plays YouTube audio.
pub fn ytdlp_needs_upgrade(raw: &str) -> (r: bool)
    ensures
        r == (spec_parse_ytdlp_version(raw@) matches Some(v) && version_before(
            v,
            spec_min_ytdlp_version(),
        )),
{
    match parse_ytdlp_version(raw) {
        Some(found) => {
            let min = min_ytdlp_version();
            found.0 < min.0 || (found.0 == min.0 && (found.1 < min.1 || (found.1 == min.1
                && found.2 < min.2)))
        },
        None => false,
    }
}

} // verus!
