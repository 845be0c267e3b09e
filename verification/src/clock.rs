//! The current hour of the day, read from the system clock in UTC.

use crate::decimal::{digit_of, digits_value};
use vstd::prelude::*;
use vstd::string::StrSliceExecFns;

verus! {

/// The hour that a clock text names: two decimal digits that denote a number
/// below 24.
pub open spec fn hour_text_value(s: Seq<char>) -> Option<nat> {
    if s.len() == 2 {
        match digits_value(s) {
            Some(v) => if v < 24 {
                Some(v)
            } else {
                None
            },
            None => None,
        }
    } else {
        None
    }
}

/// The hour of the current instant in UTC, as chrono writes it for `%H`.
///
/// Trusted: calls `chrono::Utc::now` and formats the result with
/// `DateTime::format("%H")`. chrono documents `%H` as the hour number from 00
/// to 23, padded with a zero to two digits, which is all that is claimed here.
/// Nothing is said about which hour comes back. `Utc::now` panics on a system
/// clock that stands before 1970.
#[verifier::external_body]
fn utc_hour_text() -> (text: String)
    ensures
        hour_text_value(text@) is Some,
{
    chrono::Utc::now().format("%H").to_string()
}

/// The value of a digit character.
fn digit(c: char) -> (d: u8)
    requires
        digit_of(c) is Some,
    ensures
        d as nat == digit_of(c)->0,
        d < 10,
{
    (c as u32 - 48) as u8
}

/// Reads the hour that a clock text names.
pub fn read_hour(text: &str) -> (hour: u8)
    requires
        hour_text_value(text@) is Some,
    ensures
        hour as nat == hour_text_value(text@)->0,
        hour < 24,
{
    proof {
        reveal_with_fuel(digits_value, 2);
        assert(text@.drop_last().last() == text@[0]);
    }
    let tens = digit(text.get_char(0));
    let ones = digit(text.get_char(1));
    tens * 10 + ones
}

/// The current hour of the day in UTC. Two calls may return different hours.
pub fn current_hour() -> (hour: u8)
    ensures
        hour < 24,
{
    let text = utc_hour_text();
    read_hour(text.as_str())
}

} // verus!
