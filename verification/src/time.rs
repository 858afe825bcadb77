//! Points in time, as the notification logic reads them.

use vstd::prelude::*;

verus! {

/// Nanoseconds in one second.
pub const NANOS_PER_SECOND: i128 = 1_000_000_000;

/// Seconds in one day.
pub const SECONDS_PER_DAY: i128 = 86_400;

/// A point in time: whole seconds since the Unix epoch and the nanoseconds
/// past that second.
#[derive(Debug, Clone, Copy, PartialEq, Eq)]
pub struct Timestamp {
    pub secs: i64,
    pub nanos: u32,
}

/// The standard library's reading of the system clock. Verified code
/// carries it and does not look into it.
#[verifier::external_type_specification]
#[verifier::external_body]
pub struct ExSystemTime(std::time::SystemTime);

/// The standard library's error for a system time that lies before the
/// time it is measured from.
#[verifier::external_type_specification]
#[verifier::external_body]
pub struct ExSystemTimeError(std::time::SystemTimeError);

/// The reading of the system clock, by `SystemTime::now`.
///
/// Trusted: nothing is claimed of the value.
#[verifier::external_body]
fn system_now() -> std::time::SystemTime {
    std::time::SystemTime::now()
}

/// The time from the Unix epoch to `time`, by `SystemTime::duration_since`;
/// its error where `time` lies before the epoch.
///
/// Trusted: nothing is claimed of the value.
#[verifier::external_body]
fn since_epoch(time: &std::time::SystemTime) -> Result<
    std::time::Duration,
    std::time::SystemTimeError,
> {
    time.duration_since(std::time::UNIX_EPOCH)
}

/// The whole of a duration in nanoseconds, by `Duration::as_nanos`.
///
/// Trusted: nothing is claimed of the value.
#[verifier::external_body]
fn nanos_of(duration: &std::time::Duration) -> u128 {
    duration.as_nanos()
}

/// Nanoseconds since the Unix epoch by the system clock; 0 where the
/// clock stands before the epoch.
pub(crate) fn clock_nanos() -> u128 {
    let time = system_now();
    match since_epoch(&time) {
        Ok(duration) => nanos_of(&duration),
        Err(_) => 0,
    }
}

impl Timestamp {
    /// The point in time as a number of nanoseconds since the Unix epoch.
    pub open spec fn total_nanos(self) -> int {
        self.secs * 1_000_000_000 + self.nanos
    }

    /// Whether the clock can read as this point in time: it lies at or
    /// after the Unix epoch, and its nanoseconds are less than a second.
    pub open spec fn clock_reading(self) -> bool {
        self.secs >= 0 && self.nanos < 1_000_000_000
    }

    pub fn new(secs: i64, nanos: u32) -> (t: Timestamp)
        ensures
            t.secs == secs,
            t.nanos == nanos,
    {
        Timestamp { secs, nanos }
    }

    /// The point in time that lies `nanos` nanoseconds after the Unix
    /// epoch; the last point that a timestamp can hold where that lies
    /// beyond it.
    pub fn at_nanos(nanos: u128) -> (t: Timestamp)
        ensures
            t == Timestamp::after_epoch(nanos),
            t.clock_reading(),
            nanos / 1_000_000_000 <= i64::MAX ==> t.total_nanos() == nanos,
    {
        let secs = nanos / 1_000_000_000;
        if secs > i64::MAX as u128 {
            Timestamp { secs: i64::MAX, nanos: 999_999_999 }
        } else {
            Timestamp { secs: secs as i64, nanos: (nanos % 1_000_000_000) as u32 }
        }
    }

    /// The timestamp of the point `nanos` nanoseconds after the Unix epoch.
    pub open spec fn after_epoch(nanos: u128) -> Timestamp {
        if nanos / 1_000_000_000 > i64::MAX {
            Timestamp { secs: i64::MAX, nanos: 999_999_999 }
        } else {
            Timestamp {
                secs: (nanos / 1_000_000_000) as i64,
                nanos: (nanos % 1_000_000_000) as u32,
            }
        }
    }

    /// The reading of the system clock. A clock that stands before the
    /// Unix epoch reads as the epoch.
    pub fn now() -> (t: Timestamp)
        ensures
            t.clock_reading(),
            t.secs >= 0,
            t.nanos < 1_000_000_000,
            exists|nanos: u128| t == #[trigger] Timestamp::after_epoch(nanos),
    {
        Timestamp::at_nanos(clock_nanos())
    }

    /// Nanoseconds since the Unix epoch, in executable form.
    pub fn as_nanos(&self) -> (n: i128)
        ensures
            n == self.total_nanos(),
    {
        self.secs as i128 * NANOS_PER_SECOND + self.nanos as i128
    }

    /// Nanoseconds from `earlier` to `self`; negative where `earlier` is
    /// the later of the two.
    pub fn nanos_since(&self, earlier: &Timestamp) -> (n: i128)
        ensures
            n == self.total_nanos() - earlier.total_nanos(),
    {
        self.as_nanos() - earlier.as_nanos()
    }

    /// Whether more than `seconds` whole seconds have passed from `earlier`
    /// to `self`.
    pub fn later_by_more_than(&self, earlier: &Timestamp, seconds: i64) -> (b: bool)
        ensures
            b == (self.total_nanos() - earlier.total_nanos() > seconds * 1_000_000_000),
    {
        self.nanos_since(earlier) > seconds as i128 * NANOS_PER_SECOND
    }

    /// Whether `self` is no earlier than the point `days` days before `now`.
    pub fn within_days_of(&self, now: &Timestamp, days: u32) -> (b: bool)
        ensures
            b == (self.total_nanos() >= now.total_nanos() - days * 86_400 * 1_000_000_000),
    {
        let span: i128 = days as i128 * SECONDS_PER_DAY * NANOS_PER_SECOND;
        self.as_nanos() >= now.as_nanos() - span
    }
}

} // verus!
