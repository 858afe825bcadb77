//! Timing of animations and of the progress shown for timed
//! notifications.

use vstd::prelude::*;

verus! {

/// Animation duration in milliseconds.
#[derive(Debug, Clone, Copy, PartialEq, Eq, Structural)]
pub struct AnimationDuration(pub u64);

impl AnimationDuration {
    /// No animation (instant).
    pub fn instant() -> (r: AnimationDuration)
        ensures
            r == AnimationDuration(0),
    {
        AnimationDuration(0)
    }

    /// Fast animation (200ms) - for quick interactions.
    pub fn fast() -> (r: AnimationDuration)
        ensures
            r == AnimationDuration(200),
    {
        AnimationDuration(200)
    }

    /// Normal animation (300ms) - default for most animations.
    pub fn normal() -> (r: AnimationDuration)
        ensures
            r == AnimationDuration(300),
    {
        AnimationDuration(300)
    }

    /// Slow animation (500ms) - for emphasis.
    pub fn slow() -> (r: AnimationDuration)
        ensures
            r == AnimationDuration(500),
    {
        AnimationDuration(500)
    }

    /// Convert to a duration of the standard library: the duration of as
    /// many milliseconds as this one holds.
    pub fn as_duration(self) -> (d: std::time::Duration)
        ensures
            d == millis_duration(self.0),
    {
        duration_of_millis(self.0)
    }

    /// Get duration in milliseconds.
    pub fn as_millis(self) -> (r: u64)
        ensures
            r == self.0,
    {
        self.0
    }
}

/// The duration of so many milliseconds, as the standard library's
/// `Duration::from_millis` makes it.
pub uninterp spec fn millis_duration(millis: u64) -> std::time::Duration;

/// The duration of so many milliseconds, by `Duration::from_millis`.
///
/// Trusted: the contract gives the result a name: the same number of
/// milliseconds gives the same duration. Nothing is claimed of what the
/// duration holds, which Verus cannot look into.
#[verifier::external_body]
fn duration_of_millis(millis: u64) -> (d: std::time::Duration)
    ensures
        d == millis_duration(millis),
{
    std::time::Duration::from_millis(millis)
}

/// Animation type for notifications.
#[derive(Debug, Clone, Copy, PartialEq, Eq, Structural)]
pub enum NotificationAnimationType {
    /// Notification is appearing (slide-in + fade-in).
    Appearing,
    /// Notification is being dismissed (fade-out).
    Dismissing,
    /// Notification is idle (no animation).
    Idle,
}

/// The standard library's reading of the monotonic clock. Verified code
/// carries it and does not look into it.
#[verifier::external_type_specification]
#[verifier::external_body]
pub struct ExInstant(std::time::Instant);

/// The reading of the monotonic clock, by `Instant::now`.
///
/// Trusted: nothing is claimed of the value.
#[verifier::external_body]
fn instant_now() -> std::time::Instant {
    std::time::Instant::now()
}

/// The time that has passed since `start`, by `Instant::elapsed`.
///
/// Trusted: nothing is claimed of the value, which grows from call to
/// call.
#[verifier::external_body]
fn elapsed_since(start: &std::time::Instant) -> std::time::Duration {
    start.elapsed()
}

/// The whole seconds of a duration, by `Duration::as_secs`.
///
/// Trusted: nothing is claimed of the value.
#[verifier::external_body]
fn whole_seconds(duration: &std::time::Duration) -> u64 {
    duration.as_secs()
}

/// The whole seconds that have passed since `start`.
fn seconds_since(start: &std::time::Instant) -> u64 {
    let elapsed = elapsed_since(start);
    whole_seconds(&elapsed)
}

/// Progress indicator for timed notifications.
#[derive(Debug)]
pub struct ProgressIndicator {
    /// Notification ID.
    pub notification_id: u32,
    /// Total duration in seconds.
    pub total_duration: i64,
    /// Start time.
    pub start_time: std::time::Instant,
}

/// The seconds that are left of `total_duration` seconds after `elapsed`
/// have passed, and 0 where none are left.
pub open spec fn remaining_of(total_duration: i64, elapsed: u64) -> int {
    if total_duration - elapsed > 0 {
        total_duration - elapsed
    } else {
        0
    }
}

/// Whether `total_duration` seconds are over after `elapsed` have passed.
pub open spec fn expired_after(total_duration: i64, elapsed: u64) -> bool {
    elapsed >= total_duration
}

impl ProgressIndicator {
    /// Create a new progress indicator that starts now.
    pub fn new(notification_id: u32, duration_seconds: i64) -> (r: ProgressIndicator)
        ensures
            r.notification_id == notification_id,
            r.total_duration == duration_seconds,
    {
        ProgressIndicator {
            notification_id,
            total_duration: duration_seconds,
            start_time: instant_now(),
        }
    }

    /// The whole seconds that have passed since the start.
    pub fn elapsed_seconds(&self) -> u64 {
        seconds_since(&self.start_time)
    }

    /// The remaining time in seconds once `elapsed` seconds have passed.
    pub fn remaining_after(&self, elapsed: u64) -> (r: i64)
        ensures
            r == remaining_of(self.total_duration, elapsed),
    {
        if self.total_duration <= 0 {
            return 0;
        }
        if elapsed >= self.total_duration as u64 {
            0
        } else {
            self.total_duration - elapsed as i64
        }
    }

    /// Whether time is up once `elapsed` seconds have passed.
    pub fn is_expired_after(&self, elapsed: u64) -> (r: bool)
        ensures
            r == expired_after(self.total_duration, elapsed),
    {
        self.total_duration <= 0 || elapsed >= self.total_duration as u64
    }

    /// Get remaining time in seconds, by the clock: never negative and
    /// never more than the total duration.
    pub fn remaining_seconds(&self) -> (r: i64)
        ensures
            exists|elapsed: u64| r == remaining_of(self.total_duration, elapsed),
            r >= 0,
            self.total_duration >= 0 ==> r <= self.total_duration,
    {
        let elapsed = self.elapsed_seconds();
        self.remaining_after(elapsed)
    }

    /// Check if time is up, by the clock. An indicator without a positive
    /// duration has always expired.
    pub fn is_expired(&self) -> (r: bool)
        ensures
            exists|elapsed: u64| r == expired_after(self.total_duration, elapsed),
            self.total_duration <= 0 ==> r,
    {
        let elapsed = self.elapsed_seconds();
        self.is_expired_after(elapsed)
    }
}

} // verus!
