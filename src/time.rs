//! Monotonic millisecond time values, passed explicitly into every operation.

use vstd::prelude::*;

verus! {

/// A point in time, in milliseconds since an arbitrary origin.
///
/// The counter is 64 bits wide, so it does not wrap within any realistic
/// session; arithmetic that would leave its range is ruled out by contracts.
#[derive(Clone, Copy, Debug, PartialEq, Eq, Structural)]
pub struct Instant {
    pub millis: u64,
}

/// A non-negative length of time, in milliseconds.
#[derive(Clone, Copy, Debug, PartialEq, Eq, Structural)]
pub struct Duration {
    pub millis: u64,
}

impl Instant {
    pub fn from_millis(millis: u64) -> (r: Instant)
        ensures
            r.millis == millis,
    {
        Instant { millis }
    }

    pub fn as_millis(&self) -> (r: u64)
        ensures
            r == self.millis,
    {
        self.millis
    }

    /// The instant `d` after `self`.
    pub fn plus(&self, d: Duration) -> (r: Instant)
        requires
            self.millis + d.millis <= u64::MAX,
        ensures
            r.millis == self.millis + d.millis,
    {
        Instant { millis: self.millis + d.millis }
    }

    /// Whether `self` is at or after `other`.
    pub fn at_or_after(&self, other: Instant) -> (r: bool)
        ensures
            r == (self.millis >= other.millis),
    {
        self.millis >= other.millis
    }

    /// Whether `self` is strictly after `other`.
    pub fn after(&self, other: Instant) -> (r: bool)
        ensures
            r == (self.millis > other.millis),
    {
        self.millis > other.millis
    }

    /// The time from `earlier` to `self`, or zero if `earlier` is later.
    pub fn saturating_since(&self, earlier: Instant) -> (r: Duration)
        ensures
            self.millis >= earlier.millis ==> r.millis == self.millis - earlier.millis,
            self.millis < earlier.millis ==> r.millis == 0,
    {
        if self.millis >= earlier.millis {
            Duration { millis: self.millis - earlier.millis }
        } else {
            Duration { millis: 0 }
        }
    }
}

impl Duration {
    pub fn from_millis(millis: u64) -> (r: Duration)
        ensures
            r.millis == millis,
    {
        Duration { millis }
    }

    pub fn from_secs(secs: u64) -> (r: Duration)
        requires
            secs * 1000 <= u64::MAX,
        ensures
            r.millis == secs * 1000,
    {
        Duration { millis: secs * 1000 }
    }

    pub fn as_millis(&self) -> (r: u64)
        ensures
            r == self.millis,
    {
        self.millis
    }
}

} // verus!
