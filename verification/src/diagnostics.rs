//! The diagnostic log: the text of each entry, and the time stamp in front
//! of it. Writing the entries is left to the driver.

use std::time::{Duration, SystemTime, SystemTimeError};
use vstd::prelude::*;
use vstd::string::*;

verus! {

/// The character for a decimal digit.
pub open spec fn digit_char(digit: nat) -> char
    recommends
        digit < 10,
{
    "0123456789"@[digit as int]
}

/// A number in decimal notation: most significant digit first, no sign, no
/// leading zero except for zero itself.
pub open spec fn decimal_digits(n: nat) -> Seq<char>
    decreases n,
{
    if n < 10 {
        seq![digit_char(n)]
    } else {
        decimal_digits(n / 10).push(digit_char(n % 10))
    }
}

/// A log entry: the time stamp in square brackets, a space, the message,
/// and a line feed.
pub open spec fn log_entry(stamp: Seq<char>, message: Seq<char>) -> Seq<char> {
    "["@ + stamp + "] "@ + message + "\n"@
}

fn digit_text(digit: u64) -> (text: &'static str)
    requires
        digit < 10,
    ensures
        text@ == seq![digit_char(digit as nat)],
{
    proof {
        reveal_strlit("0123456789");
        reveal_strlit("0");
        reveal_strlit("1");
        reveal_strlit("2");
        reveal_strlit("3");
        reveal_strlit("4");
        reveal_strlit("5");
        reveal_strlit("6");
        reveal_strlit("7");
        reveal_strlit("8");
        reveal_strlit("9");
    }
    let text = match digit {
        0 => "0",
        1 => "1",
        2 => "2",
        3 => "3",
        4 => "4",
        5 => "5",
        6 => "6",
        7 => "7",
        8 => "8",
        _ => "9",
    };
    assert(text@ =~= seq![digit_char(digit as nat)]);
    text
}

/// Writes a number in decimal notation.
pub fn decimal(n: u64) -> (text: String)
    ensures
        text@ == decimal_digits(n as nat),
    decreases n,
{
    if n < 10 {
        String::from_str(digit_text(n))
    } else {
        let mut text = decimal(n / 10);
        text.append(digit_text(n % 10));
        text
    }
}

/// Joins two texts.
pub(crate) fn join(first: &str, second: &str) -> (text: String)
    ensures
        text@ == first@ + second@,
{
    let mut text = String::from_str(first);
    text.append(second);
    text
}

/// Puts a count between two texts, in decimal notation.
pub(crate) fn join_count(before: &str, count: usize, after: &str) -> (text: String)
    ensures
        text@ == before@ + decimal_digits(count as nat) + after@,
{
    let mut text = String::from_str(before);
    let digits = decimal(count as u64);
    text.append(digits.as_str());
    text.append(after);
    text
}

/// Formats one entry of the diagnostic log.
pub fn log_line(stamp: &str, message: &str) -> (line: String)
    ensures
        line@ == log_entry(stamp@, message@),
{
    let mut line = String::from_str("[");
    line.append(stamp);
    line.append("] ");
    line.append(message);
    line.append("\n");
    line
}

/// `std::time::SystemTime`, a reading of the system clock, as a value
/// that is carried and never looked into.
#[verifier::external_type_specification]
#[verifier::external_body]
pub struct ExSystemTime(SystemTime);

/// `std::time::SystemTimeError`, the error of `SystemTime::duration_since`,
/// as a value that is never looked into.
#[verifier::external_type_specification]
#[verifier::external_body]
pub struct ExSystemTimeError(SystemTimeError);

/// `SystemTime::now` reads the system clock. Nothing is claimed of the
/// reading.
pub assume_specification[ SystemTime::now ]() -> (now: SystemTime);

/// `SystemTime::duration_since` gives the time elapsed from `earlier` to
/// `this`, or an error when `earlier` is the later of the two. Nothing is
/// claimed of the result.
pub assume_specification[ SystemTime::duration_since ](
    this: &SystemTime,
    earlier: SystemTime,
) -> (elapsed: Result<Duration, SystemTimeError>);

/// `Duration::as_secs` gives the whole seconds of a duration. Nothing is
/// claimed of the result.
pub assume_specification[ Duration::as_secs ](this: &Duration) -> (seconds: u64);

/// The constant `SystemTime::UNIX_EPOCH`: the first instant of 1970, UTC.
#[verifier::external_body]
fn unix_epoch() -> (epoch: SystemTime) {
    SystemTime::UNIX_EPOCH
}

/// The time stamp for a clock that stands `elapsed` whole seconds after
/// the first instant of 1970, or before that instant where there is no
/// such count: the seconds in decimal notation, and `0` for a clock that
/// stands before 1970.
pub open spec fn stamp_digits(elapsed: Option<u64>) -> Seq<char> {
    decimal_digits(
        match elapsed {
            Some(seconds) => seconds as nat,
            None => 0,
        },
    )
}

/// Writes the time stamp for a reading of the clock.
pub fn stamp(elapsed: Option<u64>) -> (text: String)
    ensures
        text@ == stamp_digits(elapsed),
{
    match elapsed {
        Some(seconds) => decimal(seconds),
        None => decimal(0),
    }
}

/// The time stamp for a log entry, from the system clock as it stands: the
/// stamp for the whole seconds since the first instant of 1970, or for a
/// clock that stands before it.
pub fn chrono_lite() -> (text: String)
    ensures
        exists|elapsed: Option<u64>| text@ == stamp_digits(elapsed),
{
    let elapsed: Option<u64> = match SystemTime::now().duration_since(unix_epoch()) {
        Ok(since) => Some(since.as_secs()),
        Err(_) => None,
    };
    stamp(elapsed)
}

} // verus!
