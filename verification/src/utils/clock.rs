//! Points in time as seconds since the start of 1970, and the calendar
//! that `chrono` keeps for them.
use vstd::prelude::*;

verus! {

/// A point in time: whole seconds since the start of 1970 and the
/// nanoseconds into the second.
#[derive(Clone, Copy, Debug, PartialEq, Eq, Structural)]
pub struct Timestamp {
    pub secs: i64,
    pub nanos: u32,
}

/// The seconds in one day.
pub const SECONDS_PER_DAY: u64 = 86_400;

/// `Utc::now` followed by `DateTime::timestamp`: the present moment, of
/// which nothing is known beforehand.
#[verifier::external_body]
fn utc_now_timestamp() -> (seconds: i64) {
    chrono::Utc::now().timestamp()
}

/// The first second that the calendar holds: the start of the first day
/// of the year -262143.
pub const MIN_SECONDS: i64 = -8_334_601_228_800;

/// The last second that the calendar holds: the end of the last day of
/// the year 262142.
pub const MAX_SECONDS: i64 = 8_210_266_876_799;

/// The moment `days` days after `seconds`, the time of day kept; `None`
/// where the calendar does not hold both moments.
pub open spec fn days_later(seconds: i64, days: u64) -> Option<i64> {
    if MIN_SECONDS <= seconds && seconds + days * SECONDS_PER_DAY <= MAX_SECONDS {
        Some((seconds + days * SECONDS_PER_DAY) as i64)
    } else {
        None
    }
}

/// `DateTime::from_timestamp`, `DateTime::checked_add_days` and
/// `DateTime::timestamp`: the moment `days` days after `seconds`, the time
/// of day kept. The first gives a moment for every second from the first
/// day of the calendar to its last, the second adds the days to the date
/// unless the date would lie beyond the last day, and the third counts
/// the seconds again.
#[verifier::external_body]
fn utc_checked_add_days(seconds: i64, days: u64) -> (later: Option<i64>)
    ensures
        later == days_later(seconds, days),
{
    chrono::DateTime::from_timestamp(seconds, 0)
        .and_then(|moment| moment.checked_add_days(chrono::Days::new(days)))
        .map(|moment| moment.timestamp())
}

/// The present moment.
pub fn now() -> (seconds: i64) {
    utc_now_timestamp()
}

/// The moment `days` days after `seconds`, or `None` where the calendar
/// does not hold both moments.
pub fn add_days(seconds: i64, days: u64) -> (later: Option<i64>)
    ensures
        later == days_later(seconds, days),
{
    utc_checked_add_days(seconds, days)
}

} // verus!
