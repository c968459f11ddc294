//! The time of day of a point in time, as text.
//!
//! Points in time are whole nanoseconds since the Unix epoch; the calendar
//! is that of the `chrono` crate.

use crate::text::digit_char;
use vstd::prelude::*;
use vstd::string::*;

verus! {

/// Whether `pattern` is one of the two layouts in use: `%H:%M:%S UTC` and
/// `%H:%M UTC`.
pub open spec fn known_layout(pattern: Seq<char>) -> bool {
    pattern == "%H:%M:%S UTC"@ || pattern == "%H:%M UTC"@
}

/// The second of the day, in UTC, that a point in time falls in.
pub open spec fn second_of_day(nanos: int) -> int {
    (nanos / 1_000_000_000) % 86_400
}

/// A number under 100 in two digits.
pub open spec fn two_digits(n: int) -> Seq<char> {
    seq![digit_char((n / 10) as nat), digit_char((n % 10) as nat)]
}

/// The time of day in UTC, to the second: hour, minute and second in two
/// digits each, as `%H:%M:%S UTC` lays them out.
pub open spec fn spec_clock_text(nanos: i64) -> Seq<char> {
    let second = second_of_day(nanos as int);
    two_digits(second / 3600) + seq![':'] + two_digits((second / 60) % 60) + seq![':']
        + two_digits(second % 60) + " UTC"@
}

/// The time of day in UTC, to the minute: hour and minute in two digits
/// each, as `%H:%M UTC` lays them out.
pub open spec fn spec_short_clock_text(nanos: i64) -> Seq<char> {
    let second = second_of_day(nanos as int);
    two_digits(second / 3600) + seq![':'] + two_digits((second / 60) % 60) + " UTC"@
}

/// Makes the `chrono::DateTime` of a point in time and calls its `format`
/// with one of the two layouts in use. The claim is that `%H`, `%M` and `%S`
/// write the hour, the minute and the second of the day in UTC in two
/// digits each, and that the rest of the layout is written as it stands.
#[verifier::external_body]
fn format_time(nanos: i64, pattern: &str) -> (text: String)
    requires
        known_layout(pattern@),
    ensures
        pattern@ == "%H:%M:%S UTC"@ ==> text@ == spec_clock_text(nanos),
        pattern@ == "%H:%M UTC"@ ==> text@ == spec_short_clock_text(nanos),
{
    chrono::DateTime::from_timestamp_nanos(nanos).format(pattern).to_string()
}

/// The time of day in UTC, to the second.
pub fn clock_text(nanos: i64) -> (text: String)
    ensures
        text@ == spec_clock_text(nanos),
{
    format_time(nanos, "%H:%M:%S UTC")
}

/// The time of day in UTC, to the minute.
pub fn short_clock_text(nanos: i64) -> (text: String)
    ensures
        text@ == spec_short_clock_text(nanos),
{
    format_time(nanos, "%H:%M UTC")
}

} // verus!
