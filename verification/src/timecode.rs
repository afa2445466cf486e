//! Rendering of playback times for the control strip.
//!
//! A time in whole seconds reads as `MM:SS`, or `HH:MM:SS` once it
//! reaches an hour; every part is padded to two digits, and the hour
//! field widens beyond two digits rather than wrap.

use vstd::prelude::*;
use vstd::string::StringExecFns;

verus! {

/// The character of a single decimal digit.
pub open spec fn digit_char(d: int) -> char {
    if d == 0 {
        '0'
    } else if d == 1 {
        '1'
    } else if d == 2 {
        '2'
    } else if d == 3 {
        '3'
    } else if d == 4 {
        '4'
    } else if d == 5 {
        '5'
    } else if d == 6 {
        '6'
    } else if d == 7 {
        '7'
    } else if d == 8 {
        '8'
    } else {
        '9'
    }
}

/// The decimal digits of a non-negative number, most significant first.
pub open spec fn decimal_spec(n: int) -> Seq<char>
    decreases n,
{
    if n < 10 {
        seq![digit_char(n)]
    } else {
        decimal_spec(n / 10).push(digit_char(n % 10))
    }
}

/// A number padded to at least two digits with a leading zero.
pub open spec fn padded2_spec(n: int) -> Seq<char> {
    if n < 10 {
        seq!['0', digit_char(n)]
    } else {
        decimal_spec(n)
    }
}

/// The text of a time in whole seconds: hours, minutes and seconds
/// separated by colons, the hour field present only once the time
/// reaches an hour.
pub open spec fn format_time_spec(total_seconds: int) -> Seq<char> {
    let hours = total_seconds / 3600;
    let minutes = (total_seconds % 3600) / 60;
    let seconds = total_seconds % 60;
    if hours > 0 {
        padded2_spec(hours) + seq![':'] + padded2_spec(minutes) + seq![':'] + padded2_spec(seconds)
    } else {
        padded2_spec(minutes) + seq![':'] + padded2_spec(seconds)
    }
}

/// Append one decimal digit.
fn push_digit(out: &mut String, d: u64)
    requires
        d < 10,
    ensures
        final(out)@ == old(out)@.push(digit_char(d as int)),
{
    let text: &str = if d == 0 {
        "0"
    } else if d == 1 {
        "1"
    } else if d == 2 {
        "2"
    } else if d == 3 {
        "3"
    } else if d == 4 {
        "4"
    } else if d == 5 {
        "5"
    } else if d == 6 {
        "6"
    } else if d == 7 {
        "7"
    } else if d == 8 {
        "8"
    } else {
        "9"
    };
    proof {
        reveal_strlit("0");
        reveal_strlit("1");
        reveal_strlit("2");
        reveal_strlit("3");
        reveal_strlit("4");
        reveal_strlit("5");
        reveal_strlit("6");
        reveal_strlit("7");
        reveal_strlit("8");
        reveal_strlit("9");
        assert(text@ =~= seq![digit_char(d as int)]);
    }
    out.append(text);
    proof {
        assert(out@ =~= old(out)@.push(digit_char(d as int)));
    }
}

/// Append all decimal digits of a number, most significant first.
fn push_decimal(out: &mut String, n: u64)
    ensures
        final(out)@ == old(out)@ + decimal_spec(n as int),
    decreases n,
{
    if n >= 10 {
        push_decimal(out, n / 10);
    }
    push_digit(out, n % 10);
    proof {
        if n >= 10 {
            assert(out@ =~= old(out)@ + decimal_spec(n as int));
        } else {
            assert(out@ =~= old(out)@ + decimal_spec(n as int));
        }
    }
}

/// Append a number padded to at least two digits.
fn push_padded2(out: &mut String, n: u64)
    ensures
        final(out)@ == old(out)@ + padded2_spec(n as int),
{
    if n < 10 {
        push_digit(out, 0);
        push_digit(out, n);
        proof {
            assert(out@ =~= old(out)@ + padded2_spec(n as int));
        }
    } else {
        push_decimal(out, n);
    }
}

/// Append the field separator.
fn push_colon(out: &mut String)
    ensures
        final(out)@ == old(out)@ + seq![':'],
{
    proof {
        reveal_strlit(":");
        assert((":")@ =~= seq![':']);
    }
    out.append(":");
}

/// Render a time in whole seconds as `MM:SS`, or `HH:MM:SS` from one
/// hour on, each field padded to two digits.
pub fn format_time(total_seconds: u64) -> (text: String)
    ensures
        text@ == format_time_spec(total_seconds as int),
{
    let hours = total_seconds / 3600;
    let minutes = (total_seconds % 3600) / 60;
    let seconds = total_seconds % 60;
    let mut text = String::new();
    if hours > 0 {
        push_padded2(&mut text, hours);
        push_colon(&mut text);
    }
    push_padded2(&mut text, minutes);
    push_colon(&mut text);
    push_padded2(&mut text, seconds);
    proof {
        assert(text@ =~= format_time_spec(total_seconds as int));
    }
    text
}

} // verus!
