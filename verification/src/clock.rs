//! The clock and the local calendar, read through outside code.

use vstd::prelude::*;
use crate::resolver::CALENDAR_MAX;
use crate::resolver::CALENDAR_MIN;

verus! {

/// The hour of the local time of day at a Unix timestamp in milliseconds,
/// by `chrono::DateTime::from_timestamp_millis`, the conversion to
/// `DateTime<Local>` and `Timelike::hour`. The claims: the first of these
/// gives a time for every timestamp of the years -9999 to 9999, which lie
/// well inside the years that it can hold; the last documents its result as
/// a number from 0 to 23.
#[verifier::external_body]
fn local_hour_at(millis: i64) -> (hour: Option<u32>)
    requires
        CALENDAR_MIN * 1000 <= millis <= CALENDAR_MAX * 1000,
    ensures
        hour is Some,
        hour matches Some(h) ==> h <= 23,
{
    match chrono::DateTime::from_timestamp_millis(millis) {
        Some(utc) => Some(chrono::Timelike::hour(&chrono::DateTime::<chrono::Local>::from(utc))),
        None => None,
    }
}

/// The local date and time, as text, of a Unix timestamp in milliseconds,
/// by `chrono::DateTime::from_timestamp_millis`, the conversion to
/// `DateTime<Local>` and `DateTime::format`. The one claim: there is a text
/// for every timestamp of the years -9999 to 9999, which lie well inside
/// the years that the first of these can hold. The text itself depends on
/// the machine's time zone: nothing is claimed of it.
#[verifier::external_body]
pub(crate) fn local_time_str(millis: i64) -> (text: Option<String>)
    requires
        CALENDAR_MIN * 1000 <= millis <= CALENDAR_MAX * 1000,
    ensures
        text is Some,
{
    match chrono::DateTime::from_timestamp_millis(millis) {
        Some(utc) => Some(
            chrono::DateTime::<chrono::Local>::from(utc).format("%Y/%m/%d %H:%M:%S").to_string(),
        ),
        None => None,
    }
}

/// The hour of the local time of day that the clock shows.
pub fn local_hour() -> (hour: u32)
    ensures
        hour <= 23,
{
    let now = now_utc_unix();
    local_hour_at(now * 1000).unwrap()
}

/// The local date and time that the clock shows, as text, year to second.
pub fn current_time_str() -> (text: String) {
    let now = now_utc_unix();
    local_time_str(now * 1000).unwrap()
}

/// The current Unix timestamp, by `time::OffsetDateTime::now_utc` and
/// `unix_timestamp`. The one claim: the timestamp is a second of the years
/// -9999 to 9999. The first function gives a date and time at offset zero,
/// and its type holds no date outside those years; the second counts that
/// date and time's seconds from the first of January 1970.
#[verifier::external_body]
pub(crate) fn now_utc_unix() -> (unix_seconds: i64)
    ensures
        CALENDAR_MIN <= unix_seconds <= CALENDAR_MAX,
{
    time::OffsetDateTime::now_utc().unix_timestamp()
}

} // verus!
