//! Readings of a monotonic clock.

use vstd::prelude::*;

verus! {

pub const NANOS_PER_MILLI: u128 = 1_000_000;

/// A reading of a monotonic clock, in nanoseconds since an origin that the caller fixes once.
#[derive(Clone, Copy, Debug, PartialEq, Eq, Structural)]
pub struct Moment {
    pub nanos: u128,
}

impl Moment {
    /// The nanoseconds from `earlier` to this moment, zero where `earlier` is the later one.
    pub open spec fn nanos_since(self, earlier: Moment) -> int {
        if earlier.nanos <= self.nanos {
            self.nanos - earlier.nanos
        } else {
            0
        }
    }

    /// Whether fewer than `millis` milliseconds have passed from `earlier` to this moment.
    pub open spec fn is_within(self, earlier: Moment, millis: u64) -> bool {
        self.nanos_since(earlier) < millis * NANOS_PER_MILLI
    }

    /// Whether fewer than `millis` milliseconds have passed from `earlier` to this moment. None
    /// have where `earlier` is the later one.
    pub fn within(self, earlier: Moment, millis: u64) -> (r: bool)
        ensures
            r == self.is_within(earlier, millis),
    {
        let limit: u128 = millis as u128 * NANOS_PER_MILLI;
        let passed: u128 = if earlier.nanos <= self.nanos {
            self.nanos - earlier.nanos
        } else {
            0
        };
        passed < limit
    }
}

} // verus!
