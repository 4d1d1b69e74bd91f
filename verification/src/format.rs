//! Clock-style rendering of a number of seconds.

use vstd::prelude::*;

verus! {

/// The largest number of seconds, plus one, that fits two digits of hours.
pub const TIMESTAMP_LIMIT: i64 = 360000;

/// Quotient of the division that rounds toward zero.
pub open spec fn truncated_quotient(x: int, y: int) -> int {
    if x >= 0 {
        x / y
    } else {
        -((-x) / y)
    }
}

/// Remainder of the division that rounds toward zero: it has the sign of `x`.
pub open spec fn truncated_remainder(x: int, y: int) -> int {
    x - y * truncated_quotient(x, y)
}

/// The decimal digit `d` as a character.
pub open spec fn digit_char(d: int) -> char {
    if d == 0 {
        '0'
    } else if d == 1 {
        '1'
    } else if d == 2 {
        '2'
    } else if d == 3 {
        '3'
    } else if d == 4 {
        '4'
    } else if d == 5 {
        '5'
    } else if d == 6 {
        '6'
    } else if d == 7 {
        '7'
    } else if d == 8 {
        '8'
    } else {
        '9'
    }
}

/// The hours of a timestamp with their colon: nothing for less than an hour,
/// one digit below ten hours, two digits from there on.
pub open spec fn hours_text(hours: int) -> Seq<char> {
    if hours <= 0 {
        Seq::empty()
    } else if hours < 10 {
        seq![digit_char(hours), ':']
    } else {
        seq![digit_char(hours / 10), digit_char(hours % 10), ':']
    }
}

/// The minutes of a timestamp with their colon. The tens digit is dropped
/// when it is zero and no hours stand before it.
pub open spec fn minutes_text(hours: int, minutes: int) -> Seq<char> {
    if hours > 0 || minutes >= 10 {
        seq![digit_char(minutes / 10), digit_char(minutes % 10), ':']
    } else {
        seq![digit_char(minutes), ':']
    }
}

/// The seconds of a timestamp, always two digits.
pub open spec fn seconds_text(seconds: int) -> Seq<char> {
    seq![digit_char(seconds / 10), digit_char(seconds % 10)]
}

/// What `format_timestamp` writes for `seconds`: `H:MM:SS`, `HH:MM:SS`,
/// `M:SS` or `MM:SS`.
pub open spec fn timestamp_text(seconds: int) -> Seq<char> {
    let hours = seconds / 3600;
    let minutes = (seconds % 3600) / 60;
    hours_text(hours) + minutes_text(hours, minutes) + seconds_text(seconds % 60)
}

/// `num_integer::Integer::div_rem` on `i64`: quotient and remainder of the
/// division that rounds toward zero. Division by zero and `i64::MIN / -1`
/// panic there and are excluded.
#[verifier::external_body]
fn div_rem(x: i64, y: i64) -> (qr: (i64, i64))
    requires
        y != 0,
        !(x == i64::MIN && y == -1),
    ensures
        qr.0 == truncated_quotient(x as int, y as int),
        qr.1 == truncated_remainder(x as int, y as int),
{
    num_integer::Integer::div_rem(&x, &y)
}

/// `String::push`: appends one character.
#[verifier::external_body]
fn push_char(text: &mut String, c: char)
    ensures
        final(text)@ == old(text)@.push(c),
{
    text.push(c)
}

/// Appends the decimal digit `num` to `res`.
pub fn push_digit(res: &mut String, num: i64)
    requires
        0 <= num < 10,
    ensures
        final(res)@ == old(res)@.push(digit_char(num as int)),
{
    let code: u8 = 48u8 + num as u8;
    push_char(res, code as char);
}

/// Formats a duration in seconds as a clock reading.
///
/// Hours are shown only when there are any; minutes take two digits after
/// hours and as few as needed otherwise; seconds always take two.
pub fn format_timestamp(seconds: i64) -> (res: String)
    requires
        0 <= seconds < TIMESTAMP_LIMIT,
    ensures
        res@ == timestamp_text(seconds as int),
{
    let mut res = String::new();

    let (hours, rest) = div_rem(seconds, 3600);
    assert(hours == seconds / 3600 && rest == seconds % 3600);
    if hours > 0 {
        let (tens, units) = div_rem(hours, 10);
        if tens > 0 {
            push_digit(&mut res, tens);
        }
        push_digit(&mut res, units);
        push_char(&mut res, ':');
    }
    assert(res@ =~= hours_text(hours as int));

    let (minutes, secs) = div_rem(rest, 60);
    assert(minutes == rest / 60 && secs == seconds % 60);
    let (tens, units) = div_rem(minutes, 10);
    if hours > 0 || tens != 0 {
        push_digit(&mut res, tens);
    }
    push_digit(&mut res, units);
    push_char(&mut res, ':');
    assert(res@ =~= hours_text(hours as int) + minutes_text(hours as int, minutes as int));

    let (tens, units) = div_rem(secs, 10);
    push_digit(&mut res, tens);
    push_digit(&mut res, units);
    assert(res@ =~= hours_text(hours as int) + minutes_text(hours as int, minutes as int)
        + seconds_text(secs as int));
    res
}

} // verus!
