//! The speed line of the status display, as text.

use vstd::prelude::*;
use vstd::string::StringExecFns;
use crate::mode::SpeedReading;

verus! {

/// The text of one decimal digit.
pub open spec fn digit_text(d: nat) -> Seq<char> {
    if d == 0 {
        "0"@
    } else if d == 1 {
        "1"@
    } else if d == 2 {
        "2"@
    } else if d == 3 {
        "3"@
    } else if d == 4 {
        "4"@
    } else if d == 5 {
        "5"@
    } else if d == 6 {
        "6"@
    } else if d == 7 {
        "7"@
    } else if d == 8 {
        "8"@
    } else {
        "9"@
    }
}

/// `n` written in decimal, without leading zeros.
pub open spec fn decimal_text(n: nat) -> Seq<char>
    decreases n,
{
    if n < 10 {
        digit_text(n)
    } else {
        decimal_text(n / 10) + digit_text(n % 10)
    }
}

/// A count of hundredths written with two decimals (`420` reads "4.20").
pub open spec fn hundredths_text(n: nat) -> Seq<char> {
    decimal_text(n / 100) + "."@ + digit_text((n / 10) % 10) + digit_text(n % 10)
}

/// What stands for the achieved speed: "paused", "..." while the first
/// measurement is pending, or the measured multiplier.
pub open spec fn reading_text(r: SpeedReading) -> Seq<char> {
    match r {
        SpeedReading::Paused => "paused"@,
        SpeedReading::Pending => "..."@,
        SpeedReading::Measured(v) => hundredths_text(v as nat) + "x"@,
    }
}

/// `Speed: <reading> / desired <d>x`, the desired speed given in tenths and
/// shown with two decimals.
pub open spec fn speed_line_text(r: SpeedReading, desired_speed: u64) -> Seq<char> {
    "Speed: "@ + reading_text(r) + " / desired "@ + hundredths_text(desired_speed as nat * 10)
        + "x"@
}

fn push_digit(s: &mut String, d: u128)
    requires
        d < 10,
    ensures
        final(s)@ == old(s)@ + digit_text(d as nat),
{
    let t: &str = if d == 0 {
        "0"
    } else if d == 1 {
        "1"
    } else if d == 2 {
        "2"
    } else if d == 3 {
        "3"
    } else if d == 4 {
        "4"
    } else if d == 5 {
        "5"
    } else if d == 6 {
        "6"
    } else if d == 7 {
        "7"
    } else if d == 8 {
        "8"
    } else {
        "9"
    };
    s.append(t);
}

/// Appends `n` in decimal.
pub fn push_decimal(s: &mut String, n: u128)
    ensures
        final(s)@ == old(s)@ + decimal_text(n as nat),
    decreases n,
{
    if n < 10 {
        push_digit(s, n);
    } else {
        push_decimal(s, n / 10);
        push_digit(s, n % 10);
        assert(final(s)@ =~= old(s)@ + decimal_text(n as nat));
    }
}

/// Appends a count of hundredths with two decimals.
pub fn push_hundredths(s: &mut String, n: u128)
    ensures
        final(s)@ == old(s)@ + hundredths_text(n as nat),
{
    push_decimal(s, n / 100);
    s.append(".");
    push_digit(s, (n / 10) % 10);
    push_digit(s, n % 10);
    assert(final(s)@ =~= old(s)@ + hundredths_text(n as nat));
}

/// The speed line of the status display.
pub fn speed_line(reading: SpeedReading, desired_speed: u64) -> (r: String)
    ensures
        r@ == speed_line_text(reading, desired_speed),
{
    let mut s = String::from_str("Speed: ");
    match reading {
        SpeedReading::Paused => s.append("paused"),
        SpeedReading::Pending => s.append("..."),
        SpeedReading::Measured(v) => {
            push_hundredths(&mut s, v);
            s.append("x");
        },
    }
    s.append(" / desired ");
    push_hundredths(&mut s, (desired_speed as u128) * 10);
    s.append("x");
    assert(s@ =~= speed_line_text(reading, desired_speed));
    s
}

} // verus!
