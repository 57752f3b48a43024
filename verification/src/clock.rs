//! Times of day and the wall clock, through `chrono`.

use vstd::prelude::*;
use chrono::Timelike;

verus! {

/// A time of day as `chrono::NaiveTime` holds it: whole seconds since midnight and a
/// fraction in nanoseconds (from 1_000_000_000 on, a leap second).
#[derive(Clone, Copy, PartialEq, Eq, Structural, Debug)]
pub struct ClockTime {
    pub secs: u32,
    pub frac: u32,
}

/// The order of times of day: by seconds, then by fraction (the order that
/// `NaiveTime` derives from its two fields).
pub open spec fn clock_before(a: ClockTime, b: ClockTime) -> bool {
    a.secs < b.secs || (a.secs == b.secs && a.frac < b.frac)
}

/// The time of day `hour:min:sec` where each part is in range.
pub open spec fn hms_time(hour: u32, min: u32, sec: u32) -> Option<ClockTime> {
    if hour < 24 && min < 60 && sec < 60 {
        Some(ClockTime { secs: (hour * 3600 + min * 60 + sec) as u32, frac: 0 })
    } else {
        None
    }
}

/// Whether `a` comes strictly before `b`.
pub fn is_before(a: ClockTime, b: ClockTime) -> (r: bool)
    ensures
        r == clock_before(a, b),
{
    a.secs < b.secs || (a.secs == b.secs && a.frac < b.frac)
}

/// `chrono::NaiveTime::from_hms_opt`: the time `hour:min:sec`, or `None` where the
/// hour is not below 24, the minute or the second not below 60.
#[verifier::external_body]
pub(crate) fn from_hms(hour: u32, min: u32, sec: u32) -> (t: Option<ClockTime>)
    ensures
        t == hms_time(hour, min, sec),
{
    match chrono::NaiveTime::from_hms_opt(hour, min, sec) {
        Some(t) => Some(ClockTime { secs: t.num_seconds_from_midnight(), frac: t.nanosecond() }),
        None => None,
    }
}

/// `chrono::Utc::now().time()`: the current time of day in UTC. Nothing is promised
/// of its value but the ranges that `NaiveTime` keeps.
#[verifier::external_body]
pub(crate) fn utc_time_of_day() -> (t: ClockTime)
    ensures
        t.secs < 86400,
        t.frac < 2_000_000_000,
{
    let t = chrono::Utc::now().time();
    ClockTime { secs: t.num_seconds_from_midnight(), frac: t.nanosecond() }
}

/// `chrono::Utc::now().timestamp()`: the current Unix time in seconds. Nothing is
/// promised of its value.
#[verifier::external_body]
pub(crate) fn utc_timestamp() -> (t: i64) {
    chrono::Utc::now().timestamp()
}

} // verus!
