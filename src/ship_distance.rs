//! The distance the ship has travelled, advanced in fixed steps at fixed
//! time boundaries.

use vstd::prelude::*;
use crate::time::{Duration, Instant};

verus! {

/// The time between two distance steps, in milliseconds.
pub const DISTANCE_UPDATE_INTERVAL_MS: u64 = 2_000;

/// The distance added at each step.
pub const DISTANCE_PER_UPDATE: u32 = 297;

/// What a distance update reports.
#[derive(Clone, Copy, Debug, PartialEq, Eq, Structural)]
pub enum ShipDistanceResult {
    Unchanged,
    DistanceUpdated(u32),
}

pub struct ShipDistance {
    distance: u32,
    next_update_at: Instant,
}

/// The distance and the next boundary after an update at `now`.
pub open spec fn distance_step(distance: u32, next_update_at: u64, now: u64) -> (u32, u64) {
    if now > next_update_at {
        (
            (distance + DISTANCE_PER_UPDATE) as u32,
            (next_update_at + DISTANCE_UPDATE_INTERVAL_MS) as u64,
        )
    } else {
        (distance, next_update_at)
    }
}

impl ShipDistance {
    pub closed spec fn distance(&self) -> u32 {
        self.distance
    }

    /// The boundary after which the next step is taken, in milliseconds.
    pub closed spec fn next_update_at(&self) -> u64 {
        self.next_update_at.millis
    }

    /// Whether one more step fits the counters.
    pub open spec fn can_step(&self) -> bool {
        &&& self.distance() + DISTANCE_PER_UPDATE <= u32::MAX
        &&& self.next_update_at() + DISTANCE_UPDATE_INTERVAL_MS <= u64::MAX
    }

    /// No distance yet; the first step comes at the first time after zero.
    pub fn new() -> (r: ShipDistance)
        ensures
            r.distance() == 0,
            r.next_update_at() == 0,
    {
        ShipDistance { distance: 0, next_update_at: Instant::from_millis(0) }
    }

    /// Takes one step if `now` is past the next boundary, and reports the new
    /// total; otherwise reports nothing and changes nothing.
    pub fn update(&mut self, now: Instant) -> (r: ShipDistanceResult)
        requires
            old(self).can_step(),
        ensures
            (final(self).distance(), final(self).next_update_at()) == distance_step(
                old(self).distance(),
                old(self).next_update_at(),
                now.millis,
            ),
            r == (if now.millis > old(self).next_update_at() {
                ShipDistanceResult::DistanceUpdated(final(self).distance())
            } else {
                ShipDistanceResult::Unchanged
            }),
            final(self).distance() >= old(self).distance(),
    {
        if now.after(self.next_update_at) {
            self.distance = self.distance + DISTANCE_PER_UPDATE;
            self.next_update_at = self.next_update_at.plus(
                Duration::from_millis(DISTANCE_UPDATE_INTERVAL_MS),
            );
            ShipDistanceResult::DistanceUpdated(self.distance)
        } else {
            ShipDistanceResult::Unchanged
        }
    }

    pub fn can_step_exec(&self) -> (r: bool)
        ensures
            r == self.can_step(),
    {
        self.distance <= u32::MAX - DISTANCE_PER_UPDATE && self.next_update_at.millis
            <= u64::MAX - DISTANCE_UPDATE_INTERVAL_MS
    }

    pub fn get_distance(&self) -> (r: u32)
        ensures
            r == self.distance(),
    {
        self.distance
    }
}

/// The distance never falls and moves only by whole steps: an update leaves
/// distance and boundary alone unless `now` is past the boundary, and then
/// adds one step to the distance and one interval to the boundary.
pub proof fn lemma_distance_steps(distance: u32, next_update_at: u64, now: u64)
    requires
        distance + DISTANCE_PER_UPDATE <= u32::MAX,
        next_update_at + DISTANCE_UPDATE_INTERVAL_MS <= u64::MAX,
    ensures
        distance_step(distance, next_update_at, now).0 >= distance,
        distance_step(distance, next_update_at, now).0 == distance || distance_step(
            distance,
            next_update_at,
            now,
        ).0 == distance + DISTANCE_PER_UPDATE,
        distance_step(distance, next_update_at, now).0 != distance <==> now > next_update_at,
        now > next_update_at ==> distance_step(distance, next_update_at, now).1 == next_update_at
            + DISTANCE_UPDATE_INTERVAL_MS,
        now <= next_update_at ==> distance_step(distance, next_update_at, now) == (
            distance,
            next_update_at,
        ),
{
}

} // verus!
