//! A span of time split into the parts of a summary line.

use vstd::prelude::*;

verus! {

pub const MILLIS_PER_SECOND: u64 = 1_000;

pub const MILLIS_PER_MINUTE: u64 = 60_000;

pub const MILLIS_PER_HOUR: u64 = 3_600_000;

/// Whole hours, then the minutes, seconds and milliseconds left over.
#[derive(Clone, Copy, Debug, PartialEq, Eq, Structural)]
pub struct Elapsed {
    pub hours: u64,
    pub minutes: u64,
    pub seconds: u64,
    pub millis: u64,
}

impl Elapsed {
    /// The span in milliseconds.
    pub open spec fn total_millis(&self) -> int {
        self.hours * MILLIS_PER_HOUR + self.minutes * MILLIS_PER_MINUTE + self.seconds
            * MILLIS_PER_SECOND + self.millis
    }

    /// Splits a number of milliseconds. The parts add up to the input, and
    /// each part but the hours stays below its unit.
    pub fn from_millis(total: u64) -> (e: Elapsed)
        ensures
            e.hours == total / MILLIS_PER_HOUR,
            e.minutes == (total / MILLIS_PER_MINUTE) % 60,
            e.seconds == (total / MILLIS_PER_SECOND) % 60,
            e.millis == total % MILLIS_PER_SECOND,
            e.total_millis() == total,
    {
        let whole_seconds: u64 = total / MILLIS_PER_SECOND;
        let whole_minutes: u64 = whole_seconds / 60;
        let hours: u64 = whole_minutes / 60;
        let minutes: u64 = whole_minutes % 60;
        let seconds: u64 = whole_seconds % 60;
        let millis: u64 = total % MILLIS_PER_SECOND;
        assert(whole_minutes == total / 60_000);
        assert(hours == total / 3_600_000);
        Elapsed { hours, minutes, seconds, millis }
    }
}

} // verus!
