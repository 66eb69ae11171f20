//! The wall clock: the `updated` field of a fresh record is the probe's
//! own completion time, read from the system clock.

use vstd::prelude::*;
use chrono::{Datelike, Timelike};
use crate::timestamp::{days_in_month, month_length, UtcInstant};

verus! {

/// Relies on `std::time::SystemTime::now` / `duration_since` and on
/// chrono's `DateTime::from_timestamp` and `Datelike`/`Timelike`
/// accessors: for any calendar date the month is 1 to 12, the day of
/// month 1 to 31, the hour 0 to 23, and the minute and second 0 to 59.
/// A clock before the Unix epoch or beyond chrono's representable range
/// falls back to the epoch itself, so the body always returns. Nothing
/// more is promised of the clock's reading.
#[verifier::external_body]
fn now_parts() -> (r: (i64, u32, u32, u32, u32, u32))
    ensures
        1 <= r.1 <= 12,
        1 <= r.2 <= 31,
        r.3 <= 23,
        r.4 <= 59,
        r.5 <= 59,
{
    let secs: i64 = match std::time::SystemTime::now().duration_since(std::time::UNIX_EPOCH) {
        Ok(d) => d.as_secs() as i64,
        Err(_) => 0,
    };
    let now = match chrono::DateTime::<chrono::Utc>::from_timestamp(secs, 0) {
        Some(t) => t,
        None => chrono::DateTime::<chrono::Utc>::UNIX_EPOCH,
    };
    (now.year() as i64, now.month(), now.day(), now.hour(), now.minute(), now.second())
}

/// The instant denoted by a clock reading's calendar parts, pinned for
/// every value of them: `Some` exactly when the year is in the
/// four-digit range and the day is consistent with its month, and then
/// exactly the instant with those fields.
pub fn instant_from_parts(y: i64, month: u32, day: u32, hour: u32, minute: u32, second: u32) -> (r: Option<UtcInstant>)
    requires
        1 <= month <= 12,
        1 <= day <= 31,
        hour <= 23,
        minute <= 59,
        second <= 59,
    ensures
        r is Some <==> (0 <= y <= 9999 && day as int <= days_in_month(y as int, month as int)),
        r matches Some(t) ==> t == (UtcInstant { year: y as u32, month, day, hour, minute, second }),
        r matches Some(t) ==> t.wf(),
{
    if y < 0 || y > 9999 {
        return None;
    }
    let year: u32 = y as u32;
    if day > month_length(year, month) {
        return None;
    }
    Some(UtcInstant { year, month, day, hour, minute, second })
}

/// The current wall-clock instant in UTC, validated into a well-formed
/// instant; `None` only when the clock's reading does not denote one
/// (a year out of the four-digit range, or a day inconsistent with its
/// month).
pub fn current_instant() -> (r: Option<UtcInstant>)
    ensures
        r matches Some(t) ==> t.wf(),
{
    let (y, month, day, hour, minute, second) = now_parts();
    instant_from_parts(y, month, day, hour, minute, second)
}

} // verus!
