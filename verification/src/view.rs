//! The arithmetic and text behind the panels: bar layouts, scrolling,
//! truncation, time labels, the loading animation, the toast's place.
use vstd::prelude::*;
use crate::text::{chars_of, concat, decimal, push_char, push_decimal, string_of_range};

verus! {

/// Height of one track card in the queue panel.
pub const CARD_HEIGHT: u16 = 5;

/// The equalizer's bar layout for a panel `width` columns wide: bars two
/// columns wide with one-column gaps, as many as fit (at least one),
/// centred. Returns (bars, bar width, gap, step, left offset).
pub open spec fn spec_bar_layout(width: u16) -> (u16, u16, u16, u16, u16) {
    let n = (width + 1) / 3;
    let bars = if n >= 1 {
        n
    } else {
        1
    };
    let used = bars * 3 - 1;
    let offset = if width >= used {
        (width - used) / 2
    } else {
        0
    };
    (bars as u16, 2, 1, 3, offset as u16)
}

/// The equalizer's bar layout (see `spec_bar_layout`); the widest terminal
/// (65535 columns) is left out: `width + gap` does not fit in a `u16` there.
pub fn bar_layout(width: u16) -> (r: (u16, u16, u16, u16, u16))
    requires
        width < u16::MAX,
    ensures
        r == spec_bar_layout(width),
{
    let bar_width: u16 = 2;
    let gap: u16 = 1;
    let step = bar_width + gap;
    let num_bars = (width + gap) / step;
    let num_bars = if num_bars >= 1 {
        num_bars
    } else {
        1
    };
    let used = num_bars * step - gap;
    let x_offset = width.saturating_sub(used) / 2;
    (num_bars, bar_width, gap, step, x_offset)
}

/// A number in at least two digits (`{:02}`).
pub open spec fn two_digits(n: nat) -> Seq<char> {
    if n < 10 {
        seq!['0'] + decimal(n)
    } else {
        decimal(n)
    }
}

/// `mm:ss` for `secs` seconds: minutes and seconds in at least two digits.
pub open spec fn spec_clock(secs: nat) -> Seq<char> {
    two_digits(secs / 60) + seq![':'] + two_digits(secs % 60)
}

fn push_two_digits(s: &mut String, n: u64)
    ensures
        final(s)@ == old(s)@ + two_digits(n as nat),
{
    if n < 10 {
        push_char(s, '0');
    }
    push_decimal(s, n);
}

/// The progress bar's time label (`03:07`) for `secs` seconds.
pub fn format_time(secs: u64) -> (r: String)
    ensures
        r@ == spec_clock(secs as nat),
{
    let mut s = String::new();
    push_two_digits(&mut s, secs / 60);
    push_char(&mut s, ':');
    push_two_digits(&mut s, secs % 60);
    s
}

/// How long ago a play was, from the seconds elapsed since: `now` under a
/// minute, then whole minutes (`5m`), hours (`3h`) or days (`2d`).
pub open spec fn spec_relative_time(elapsed_secs: int) -> Seq<char> {
    if elapsed_secs < 60 {
        "now"@
    } else if elapsed_secs < 3600 {
        decimal((elapsed_secs / 60) as nat) + "m"@
    } else if elapsed_secs < 86400 {
        decimal((elapsed_secs / 3600) as nat) + "h"@
    } else {
        decimal((elapsed_secs / 86400) as nat) + "d"@
    }
}

/// The history view's "played ... ago" label (see `spec_relative_time`).
pub fn format_relative_time(elapsed_secs: i64) -> (r: String)
    ensures
        r@ == spec_relative_time(elapsed_secs as int),
{
    if elapsed_secs < 60 {
        return String::from_str("now");
    }
    let secs = elapsed_secs as u64;
    let mut s = String::new();
    if elapsed_secs < 3600 {
        push_decimal(&mut s, secs / 60);
        push_char(&mut s, 'm');
    } else if elapsed_secs < 86400 {
        push_decimal(&mut s, secs / 3600);
        push_char(&mut s, 'h');
    } else {
        push_decimal(&mut s, secs / 86400);
        push_char(&mut s, 'd');
    }
    proof {
        reveal_strlit("m");
        reveal_strlit("h");
        reveal_strlit("d");
    }
    s
}

/// A title fitted into `max_len` characters: a longer one is cut to
/// `max_len - 3` characters and `...` is added (when `max_len` exceeds 3).
pub open spec fn spec_truncate(title: Seq<char>, max_len: nat) -> Seq<char> {
    if title.len() > max_len && max_len > 3 {
        title.take(max_len - 3) + "..."@
    } else {
        title
    }
}

/// A card title fitted into `max_len` characters (see `spec_truncate`).
pub fn truncate_title(title: &str, max_len: usize) -> (r: String)
    ensures
        r@ == spec_truncate(title@, max_len as nat),
{
    let v = chars_of(title);
    if v.len() > max_len && max_len > 3 {
        let head = string_of_range(&v, 0, max_len - 3);
        concat(head.as_str(), "...")
    } else {
        assert(v@.subrange(0, v@.len() as int) =~= title@);
        string_of_range(&v, 0, v.len())
    }
}

/// How far a list scrolls so that row `selected` is visible in `height`
/// rows: just enough to put it on the last row, or not at all. The last
/// index with no rows at all is left out: `selected + 1` overflows there.
pub fn scroll_offset(selected: usize, height: usize) -> (r: usize)
    requires
        height > 0 || selected < usize::MAX,
    ensures
        r == (if selected >= height {
            selected - height + 1
        } else {
            0
        }),
{
    if selected >= height {
        selected - height + 1
    } else {
        0
    }
}

/// How many whole track cards fit in `height` rows.
pub fn visible_cards(height: u16) -> (r: usize)
    ensures
        r == height / CARD_HEIGHT,
{
    (height / CARD_HEIGHT) as usize
}

/// The highlighted segment of the indeterminate loading bar at animation
/// step `tick` on a bar `width` cells wide: a segment of up to four cells
/// whose centre bounces between the ends. Returns its start and end cell.
pub open spec fn spec_bounce(tick: nat, width: nat) -> (nat, nat) {
    let t = tick % (2 * width);
    let pos = if t < width {
        t
    } else {
        (2 * width - t) as nat
    };
    let len = if width < 4 {
        width
    } else {
        4
    };
    let start = if pos >= len / 2 {
        (pos - len / 2) as nat
    } else {
        0
    };
    let end = if start + len < width {
        start + len
    } else {
        width
    };
    (start, end)
}

/// The highlighted segment of the indeterminate loading bar (see
/// `spec_bounce`). A bar of no cells is left out: the animation step is
/// taken modulo twice the width, which is zero there.
pub fn bounce_segment(tick: usize, width: usize) -> (r: (usize, usize))
    requires
        0 < width <= usize::MAX / 2,
    ensures
        r.0 == spec_bounce(tick as nat, width as nat).0,
        r.1 == spec_bounce(tick as nat, width as nat).1,
        r.0 <= r.1 <= width,
{
    let t = tick % (width * 2);
    let pos = if t < width {
        t
    } else {
        width * 2 - t
    };
    let len = if width < 4 {
        width
    } else {
        4
    };
    let start = pos.saturating_sub(len / 2);
    let end = if start + len < width {
        start + len
    } else {
        width
    };
    (start, end)
}

/// Rows of the now-playing thumbnail for a panel `height` rows high: none
/// without an image; otherwise 12, 8 or 5 rows as space allows, none below 12.
pub fn thumbnail_height(has_image: bool, height: u16) -> (r: u16)
    ensures
        r == (if !has_image {
            0u16
        } else if height >= 22 {
            12
        } else if height >= 16 {
            8
        } else if height >= 12 {
            5
        } else {
            0
        }),
{
    if !has_image {
        0
    } else if height >= 22 {
        12
    } else if height >= 16 {
        8
    } else if height >= 12 {
        5
    } else {
        0
    }
}

/// The toast's place in the top row of a screen `area_width` wide for a
/// message of `message_len` bytes: as wide as the message plus four (at
/// most the screen), one column from the right edge. Returns (x, width).
pub open spec fn spec_toast_span(message_len: nat, area_width: u16) -> (u16, u16) {
    let want = (message_len % 65536) + 4;
    let width = if want < area_width {
        want
    } else {
        area_width as nat
    };
    let x = if area_width >= width + 1 {
        area_width - width - 1
    } else {
        0
    };
    (x as u16, width as u16)
}

/// The toast's place (see `spec_toast_span`). Lengths whose low 16 bits
/// overflow when four is added are left out: the width is `len as u16 + 4`.
pub fn toast_span(message_len: usize, area_width: u16) -> (r: (u16, u16))
    requires
        message_len % 65536 + 4 <= u16::MAX,
    ensures
        r == spec_toast_span(message_len as nat, area_width),
{
    let low = (message_len % 65536) as u16;
    let want = low + 4;
    let width = if want < area_width {
        want
    } else {
        area_width
    };
    let x = area_width.saturating_sub(width).saturating_sub(1);
    (x, width)
}

/// How a channel count reads: `mono`, `stereo`, or `{n}ch`.
pub open spec fn spec_channel_label(n: u32) -> Seq<char> {
    if n == 1 {
        "mono"@
    } else if n == 2 {
        "stereo"@
    } else {
        decimal(n as nat) + "ch"@
    }
}

/// How a channel count reads (see `spec_channel_label`).
pub fn channel_label(n: u32) -> (r: String)
    ensures
        r@ == spec_channel_label(n),
{
    if n == 1 {
        String::from_str("mono")
    } else if n == 2 {
        String::from_str("stereo")
    } else {
        let mut s = String::new();
        push_decimal(&mut s, n as u64);
        s.append("ch");
        s
    }
}

/// How a bitrate reads: `{kbps} kbps`.
pub fn bitrate_label(kbps: u32) -> (r: String)
    ensures
        r@ == decimal(kbps as nat) + " kbps"@,
{
    let mut s = String::new();
    push_decimal(&mut s, kbps as u64);
    s.append(" kbps");
    s
}

} // verus!
