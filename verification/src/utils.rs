//! Verified formatting helpers for the dashboard: decimal rendering,
//! duration formatting, string truncation, text progress bars and the
//! usage/temperature colour bands.

use vstd::prelude::*;
use vstd::string::*;

verus! {

/// Colour band used by gauges and tables.
#[derive(Clone, Copy, PartialEq, Eq, Structural, Debug)]
pub enum MeterColor {
    Green,
    Cyan,
    Yellow,
    Red,
}

/// Colour band for a usage percentage, in basis points: red from 90%,
/// yellow from 70%, cyan from 50%, green below.
pub open spec fn spec_usage_color(pct: u32) -> MeterColor {
    if pct >= 9000 {
        MeterColor::Red
    } else if pct >= 7000 {
        MeterColor::Yellow
    } else if pct >= 5000 {
        MeterColor::Cyan
    } else {
        MeterColor::Green
    }
}

/// Get a colour based on a usage percentage given in basis points.
pub fn usage_color(pct: u32) -> (c: MeterColor)
    ensures
        c == spec_usage_color(pct),
{
    if pct >= 9000 {
        MeterColor::Red
    } else if pct >= 7000 {
        MeterColor::Yellow
    } else if pct >= 5000 {
        MeterColor::Cyan
    } else {
        MeterColor::Green
    }
}

/// Colour band for a temperature in whole degrees Celsius: red from 85,
/// yellow from 70, cyan from 50, green below.
pub open spec fn spec_temp_color(temp: u32) -> MeterColor {
    if temp >= 85 {
        MeterColor::Red
    } else if temp >= 70 {
        MeterColor::Yellow
    } else if temp >= 50 {
        MeterColor::Cyan
    } else {
        MeterColor::Green
    }
}

/// Get a colour based on a temperature.
pub fn temp_color(temp: u32) -> (c: MeterColor)
    ensures
        c == spec_temp_color(temp),
{
    if temp >= 85 {
        MeterColor::Red
    } else if temp >= 70 {
        MeterColor::Yellow
    } else if temp >= 50 {
        MeterColor::Cyan
    } else {
        MeterColor::Green
    }
}

/// The decimal digit character for `d`.
pub open spec fn digit_char(d: nat) -> char {
    if d == 0 {
        '0'
    } else if d == 1 {
        '1'
    } else if d == 2 {
        '2'
    } else if d == 3 {
        '3'
    } else if d == 4 {
        '4'
    } else if d == 5 {
        '5'
    } else if d == 6 {
        '6'
    } else if d == 7 {
        '7'
    } else if d == 8 {
        '8'
    } else {
        '9'
    }
}

/// The decimal digit string of `n`, without leading zeros.
pub open spec fn spec_digits(n: nat) -> Seq<char>
    decreases n,
{
    if n < 10 {
        seq![digit_char(n)]
    } else {
        spec_digits(n / 10) + seq![digit_char(n % 10)]
    }
}

/// `n` as a two-digit, zero-padded string; more digits if `n >= 100`.
pub open spec fn spec_pad2(n: nat) -> Seq<char> {
    if n < 10 {
        seq!['0'] + spec_digits(n)
    } else {
        spec_digits(n)
    }
}

fn digit_string(d: u64) -> (s: String)
    requires
        d < 10,
    ensures
        s@ == seq![digit_char(d as nat)],
{
    proof {
        reveal_strlit("0");
        reveal_strlit("1");
        reveal_strlit("2");
        reveal_strlit("3");
        reveal_strlit("4");
        reveal_strlit("5");
        reveal_strlit("6");
        reveal_strlit("7");
        reveal_strlit("8");
        reveal_strlit("9");
    }
    let t = if d == 0 {
        "0"
    } else if d == 1 {
        "1"
    } else if d == 2 {
        "2"
    } else if d == 3 {
        "3"
    } else if d == 4 {
        "4"
    } else if d == 5 {
        "5"
    } else if d == 6 {
        "6"
    } else if d == 7 {
        "7"
    } else if d == 8 {
        "8"
    } else {
        "9"
    };
    let s = t.to_owned();
    proof {
        assert(s@ =~= seq![digit_char(d as nat)]);
    }
    s
}

/// Render `n` in decimal.
pub fn u64_to_string(n: u64) -> (s: String)
    ensures
        s@ == spec_digits(n as nat),
    decreases n,
{
    if n < 10 {
        digit_string(n)
    } else {
        let mut s = u64_to_string(n / 10);
        let last = digit_string(n % 10);
        s.append(last.as_str());
        proof {
            assert(s@ =~= spec_digits(n as nat));
        }
        s
    }
}

/// Render `n` in decimal, zero-padded to at least two digits.
pub fn u64_to_string_pad2(n: u64) -> (s: String)
    ensures
        s@ == spec_pad2(n as nat),
{
    if n < 10 {
        proof {
            reveal_strlit("0");
        }
        let mut s = "0".to_owned();
        let digit = digit_string(n);
        s.append(digit.as_str());
        proof {
            assert(s@ =~= spec_pad2(n as nat));
        }
        s
    } else {
        u64_to_string(n)
    }
}

/// The human-readable form of an uptime given in seconds: days, hours and
/// minutes, with the larger units omitted while they are zero.
pub open spec fn spec_format_duration(secs: nat) -> Seq<char> {
    let days = secs / 86400;
    let hours = (secs % 86400) / 3600;
    let mins = (secs % 3600) / 60;
    if days > 0 {
        spec_digits(days) + seq!['d', ' '] + spec_pad2(hours) + seq!['h', ' '] + spec_pad2(mins)
            + seq!['m']
    } else if hours > 0 {
        spec_pad2(hours) + seq!['h', ' '] + spec_pad2(mins) + seq!['m']
    } else {
        spec_pad2(mins) + seq!['m']
    }
}

/// Format a duration in seconds to a human-readable string.
pub fn format_duration(secs: u64) -> (s: String)
    ensures
        s@ == spec_format_duration(secs as nat),
{
    proof {
        reveal_strlit("d ");
        reveal_strlit("h ");
        reveal_strlit("m");
    }
    let days = secs / 86400;
    let hours = (secs % 86400) / 3600;
    let mins = (secs % 3600) / 60;

    let mut s = String::new();
    if days > 0 {
        let d = u64_to_string(days);
        s.append(d.as_str());
        s.append("d ");
    }
    if days > 0 || hours > 0 {
        let h = u64_to_string_pad2(hours);
        s.append(h.as_str());
        s.append("h ");
    }
    let m = u64_to_string_pad2(mins);
    s.append(m.as_str());
    s.append("m");
    proof {
        assert(s@ =~= spec_format_duration(secs as nat));
    }
    s
}

/// The truncated form of `s`: unchanged when it has at most `max_len`
/// characters, otherwise cut to `max_len - 3` characters with an ellipsis.
pub open spec fn spec_truncate(s: Seq<char>, max_len: nat) -> Seq<char> {
    if s.len() <= max_len {
        s
    } else {
        s.subrange(0, if max_len >= 3 { max_len - 3 } else { 0 }) + seq!['.', '.', '.']
    }
}

/// Truncate a string to a maximum length (in characters) with an ellipsis.
pub fn truncate_string(s: &str, max_len: usize) -> (r: String)
    ensures
        r@ == spec_truncate(s@, max_len as nat),
{
    proof {
        reveal_strlit("...");
    }
    let len = s.unicode_len();
    if len <= max_len {
        s.to_owned()
    } else {
        let keep = if max_len >= 3 {
            max_len - 3
        } else {
            0
        };
        let head = s.substring_char(0, keep);
        let mut r = head.to_owned();
        r.append("...");
        proof {
            assert(r@ =~= spec_truncate(s@, max_len as nat));
        }
        r
    }
}

/// `count` copies of the character `c`.
pub open spec fn repeat_char(c: char, count: nat) -> Seq<char> {
    Seq::new(count, |i: int| c)
}

/// How many cells of a `width`-wide bar are filled at `pct` basis points:
/// the rounded share, never more than the width.
pub open spec fn spec_bar_filled(pct: nat, width: nat) -> nat {
    let filled = (pct * width + (crate::PERCENT_SCALE as nat) / 2) / (crate::PERCENT_SCALE as nat);
    if filled <= width {
        filled
    } else {
        width
    }
}

/// A text progress bar: `[`, the filled cells, the empty cells, `]`.
pub open spec fn spec_bar(pct: nat, width: nat) -> Seq<char> {
    seq!['['] + repeat_char('#', spec_bar_filled(pct, width)) + repeat_char(
        '-',
        (width - spec_bar_filled(pct, width)) as nat,
    ) + seq![']']
}

/// Create a text-based progress bar of `width` cells for a percentage in
/// basis points.
pub fn create_bar(pct: u32, width: usize) -> (s: String)
    requires
        width <= 65535,
    ensures
        s@ == spec_bar(pct as nat, width as nat),
{
    proof {
        reveal_strlit("[");
        reveal_strlit("]");
        reveal_strlit("#");
        reveal_strlit("-");
    }
    proof {
        assert((pct as u64) * (width as u64) <= 4294967295u64 * 65535u64) by (nonlinear_arith)
            requires
                pct <= u32::MAX,
                width <= 65535,
        ;
    }
    let filled_raw = ((pct as u64) * (width as u64) + (crate::PERCENT_SCALE as u64) / 2)
        / (crate::PERCENT_SCALE as u64);
    let filled = if filled_raw <= width as u64 {
        filled_raw as usize
    } else {
        width
    };
    let mut s = "[".to_owned();
    let mut i: usize = 0;
    while i < filled
        invariant
            i <= filled,
            s@ =~= seq!['['] + repeat_char('#', i as nat),
        decreases filled - i,
    {
        s.append("#");
        proof {
            reveal_strlit("#");
            assert(s@ =~= seq!['['] + repeat_char('#', (i + 1) as nat));
        }
        i += 1;
    }
    let mut j: usize = 0;
    while j < width - filled
        invariant
            filled <= width,
            j <= width - filled,
            s@ =~= seq!['['] + repeat_char('#', filled as nat) + repeat_char('-', j as nat),
        decreases width - filled - j,
    {
        s.append("-");
        proof {
            reveal_strlit("-");
            assert(s@ =~= seq!['['] + repeat_char('#', filled as nat) + repeat_char(
                '-',
                (j + 1) as nat,
            ));
        }
        j += 1;
    }
    s.append("]");
    proof {
        assert(s@ =~= spec_bar(pct as nat, width as nat));
    }
    s
}

/// Utilization estimate used where a GPU backend reports none: a plain
/// placeholder of zero, so memory-based readings stay the reliable signal.
pub fn estimate_gpu_utilization() -> (u: u32)
    ensures
        u == 0,
{
    0
}

} // verus!
