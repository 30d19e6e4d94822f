//! The `MM:SS/MM:SS` text that shows position and length of a track.

use vstd::prelude::*;
use vstd::string::*;

verus! {

/// The character for a decimal digit.
pub open spec fn digit_char(d: int) -> char
    recommends
        0 <= d < 10,
{
    if d == 0 {
        '0'
    } else if d == 1 {
        '1'
    } else if d == 2 {
        '2'
    } else if d == 3 {
        '3'
    } else if d == 4 {
        '4'
    } else if d == 5 {
        '5'
    } else if d == 6 {
        '6'
    } else if d == 7 {
        '7'
    } else if d == 8 {
        '8'
    } else {
        '9'
    }
}

/// Decimal digits of `n`, most significant first, without leading zeros.
pub open spec fn decimal(n: nat) -> Seq<char>
    decreases n,
{
    if n < 10 {
        seq![digit_char(n as int)]
    } else {
        decimal(n / 10).push(digit_char((n % 10) as int))
    }
}

/// `n` in decimal, padded with a zero to at least two digits.
pub open spec fn two_digits(n: nat) -> Seq<char> {
    if n < 10 {
        seq!['0', digit_char(n as int)]
    } else {
        decimal(n)
    }
}

/// `secs` seconds as minutes and seconds, `MM:SS`. Minutes are not wrapped
/// into hours: from a hundred minutes on the text grows.
pub open spec fn clock_text(secs: nat) -> Seq<char> {
    two_digits(secs / 60) + seq![':'] + two_digits(secs % 60)
}

/// Position and length side by side, `MM:SS/MM:SS`.
pub open spec fn timecode(position_secs: nat, total_secs: nat) -> Seq<char> {
    clock_text(position_secs) + seq!['/'] + clock_text(total_secs)
}

fn digit_text(d: u64) -> (text: &'static str)
    requires
        d < 10,
    ensures
        text@ == seq![digit_char(d as int)],
{
    proof {
        reveal_strlit("0");
        reveal_strlit("1");
        reveal_strlit("2");
        reveal_strlit("3");
        reveal_strlit("4");
        reveal_strlit("5");
        reveal_strlit("6");
        reveal_strlit("7");
        reveal_strlit("8");
        reveal_strlit("9");
    }
    if d == 0 {
        "0"
    } else if d == 1 {
        "1"
    } else if d == 2 {
        "2"
    } else if d == 3 {
        "3"
    } else if d == 4 {
        "4"
    } else if d == 5 {
        "5"
    } else if d == 6 {
        "6"
    } else if d == 7 {
        "7"
    } else if d == 8 {
        "8"
    } else {
        "9"
    }
}

/// Appends `n` in decimal to `out`.
pub fn append_decimal(out: &mut String, n: u64)
    ensures
        final(out)@ == old(out)@ + decimal(n as nat),
    decreases n,
{
    if n >= 10 {
        append_decimal(out, n / 10);
    }
    out.append(digit_text(n % 10));
}

fn append_two_digits(out: &mut String, n: u64)
    ensures
        final(out)@ == old(out)@ + two_digits(n as nat),
{
    if n < 10 {
        out.append("0");
        out.append(digit_text(n));
        proof {
            reveal_strlit("0");
        }
    } else {
        append_decimal(out, n);
    }
}

fn append_clock(out: &mut String, secs: u64)
    ensures
        final(out)@ == old(out)@ + clock_text(secs as nat),
{
    append_two_digits(out, secs / 60);
    out.append(":");
    append_two_digits(out, secs % 60);
    proof {
        reveal_strlit(":");
    }
}

/// Renders position and length, both in whole seconds, as `MM:SS/MM:SS`.
pub fn format_timecode(position_secs: u64, total_secs: u64) -> (text: String)
    ensures
        text@ == timecode(position_secs as nat, total_secs as nat),
{
    let mut text: String = String::new();
    append_clock(&mut text, position_secs);
    text.append("/");
    append_clock(&mut text, total_secs);
    proof {
        reveal_strlit("/");
    }
    text
}

} // verus!
