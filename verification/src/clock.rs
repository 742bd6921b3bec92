//! Time of day as the map overlay shows it.

use vstd::prelude::*;

verus! {

pub const SECONDS_PER_DAY: i64 = 86_400;

/// The decimal digit for `d`, which is below ten.
pub open spec fn digit(d: int) -> char {
    seq!['0', '1', '2', '3', '4', '5', '6', '7', '8', '9'][d]
}

/// The second of the UTC day on which a Unix timestamp falls.
pub open spec fn second_of_day(time: int) -> int {
    time % 86_400
}

/// Hour, minute and second of a second of the day, two digits each.
pub open spec fn time_of_day_text(second: int) -> Seq<char> {
    let h = second / 3600;
    let m = (second / 60) % 60;
    let s = second % 60;
    seq![digit(h / 10), digit(h % 10), digit(m / 10), digit(m % 10), digit(s / 10), digit(s % 10)]
}

/// Calls chrono: `NaiveTime::from_num_seconds_from_midnight_opt` builds the
/// time of day, which exists for every second below 86400, and
/// `NaiveTime::format` with `%H%M%S` writes hour, minute and second, each
/// zero-padded to two digits.
#[verifier::external_body]
fn format_second_of_day(second: u32) -> (text: String)
    requires
        second < 86_400,
    ensures
        text@ == time_of_day_text(second as int),
{
    match chrono::NaiveTime::from_num_seconds_from_midnight_opt(second, 0) {
        Some(t) => t.format("%H%M%S").to_string(),
        None => String::new(),
    }
}

/// The UTC time of day of a Unix timestamp as six digits.
pub fn time_of_day(time: i64) -> (text: String)
    ensures
        text@ == time_of_day_text(second_of_day(time as int)),
{
    match time.checked_rem_euclid(SECONDS_PER_DAY) {
        Some(second) => format_second_of_day(second as u32),
        None => String::new(),
    }
}

} // verus!
