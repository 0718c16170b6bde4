//! The wall clock, and unix times as UTC date-times.

use vstd::prelude::*;

verus! {

/// Milliseconds since the unix epoch by the system clock, or `None` when the
/// clock is set before the epoch. Calls `SystemTime::now` and
/// `SystemTime::duration_since`; the reading depends on the clock, so nothing
/// is promised of it.
#[verifier::external_body]
pub(crate) fn system_millis_since_epoch() -> Option<u128> {
    std::time::SystemTime::now().duration_since(std::time::UNIX_EPOCH).ok().map(|elapsed| elapsed.as_millis())
}

/// A clock reading as unix milliseconds: 0 for a clock before the epoch,
/// `i64::MAX` for one beyond what `i64` holds.
pub open spec fn spec_unix_ms_from(reading: Option<u128>) -> i64 {
    match reading {
        Some(ms) => if ms > i64::MAX { i64::MAX } else { ms as i64 },
        None => 0,
    }
}

/// A clock reading as unix whole seconds.
pub open spec fn spec_unix_seconds_from(reading: Option<u128>) -> i64 {
    (spec_unix_ms_from(reading) / 1000) as i64
}

/// The unix time in milliseconds that a clock reading stands for.
pub fn unix_ms_from(reading: Option<u128>) -> (ms: i64)
    ensures
        ms == spec_unix_ms_from(reading),
{
    match reading {
        Some(ms) => if ms > i64::MAX as u128 {
            i64::MAX
        } else {
            ms as i64
        },
        None => 0,
    }
}

/// The unix time in whole seconds that a clock reading stands for.
pub fn unix_seconds_from(reading: Option<u128>) -> (seconds: i64)
    ensures
        seconds == spec_unix_seconds_from(reading),
        0 <= seconds <= i64::MAX / 1000,
{
    unix_ms_from(reading) / 1000
}

/// The current unix time in whole seconds (0 if the clock is before 1970).
pub fn now_unix_seconds() -> (now: i64)
    ensures
        exists|reading: Option<u128>| now == #[trigger] spec_unix_seconds_from(reading),
        now >= 0,
{
    unix_seconds_from(system_millis_since_epoch())
}

/// The first millisecond `chrono` can hold as a UTC date-time
/// (January 1 of the year -262143).
pub const MIN_UTC_MS: i64 = -8_334_601_228_800_000;

/// The last millisecond `chrono` can hold as a UTC date-time
/// (December 31 of the year 262142, 23:59:59.999).
pub const MAX_UTC_MS: i64 = 8_210_266_876_799_999;

/// Unix milliseconds as a `chrono` UTC date-time, read back as unix
/// milliseconds. Calls `DateTime::from_timestamp_millis` and
/// `DateTime::timestamp_millis`: within the date range of `chrono` the two
/// round-trip, outside it there is no date-time.
#[verifier::external_body]
fn utc_datetime_millis(ms: i64) -> (datetime_ms: Option<i64>)
    ensures
        datetime_ms == (if MIN_UTC_MS <= ms <= MAX_UTC_MS { Some(ms) } else { None::<i64> }),
{
    match chrono::DateTime::from_timestamp_millis(ms) {
        Some(datetime) => Some(datetime.timestamp_millis()),
        None => None,
    }
}

/// The UTC date-time of unix milliseconds, as unix milliseconds; the epoch
/// where `chrono` has no date-time for them.
pub open spec fn spec_utc_ms_or_epoch(ms: i64) -> i64 {
    if MIN_UTC_MS <= ms <= MAX_UTC_MS { ms } else { 0 }
}

/// The UTC date-time that unix milliseconds stand for (the epoch where they
/// fall outside the dates `chrono` can hold), as unix milliseconds.
pub fn utc_ms_or_epoch(ms: i64) -> (datetime_ms: i64)
    ensures
        datetime_ms == spec_utc_ms_or_epoch(ms),
{
    match utc_datetime_millis(ms) {
        Some(datetime_ms) => datetime_ms,
        None => 0,
    }
}

} // verus!
