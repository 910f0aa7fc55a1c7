//! Monotonic timestamps and microsecond-resolution durations.

use vstd::prelude::*;

verus! {

/// An opaque monotonic timestamp, counted in microsecond ticks.
#[derive(Clone, Copy, PartialEq, Eq, Structural, Debug)]
pub struct Instant {
    ticks: u64,
}

/// A non-negative elapsed time with microsecond resolution.
#[derive(Clone, Copy, PartialEq, Eq, Structural, Debug)]
pub struct Duration {
    micros: u64,
}

impl Instant {
    pub closed spec fn spec_ticks(self) -> u64 {
        self.ticks
    }

    pub fn from_ticks(ticks: u64) -> (r: Instant)
        ensures
            r.spec_ticks() == ticks,
    {
        Instant { ticks }
    }

    pub fn ticks(&self) -> (r: u64)
        ensures
            r == self.spec_ticks(),
    {
        self.ticks
    }

    /// The elapsed time since `earlier`, or `None` when `earlier` is not
    /// strictly earlier than `self`.
    pub fn checked_duration_since(&self, earlier: &Instant) -> (r: Option<Duration>)
        ensures
            earlier.spec_ticks() < self.spec_ticks() ==> (r matches Some(d)
                && d.spec_micros() == self.spec_ticks() - earlier.spec_ticks()),
            earlier.spec_ticks() >= self.spec_ticks() ==> r is None,
    {
        if earlier.ticks < self.ticks {
            Some(Duration { micros: self.ticks - earlier.ticks })
        } else {
            None
        }
    }
}

impl Duration {
    pub closed spec fn spec_micros(self) -> u64 {
        self.micros
    }

    pub fn from_micros(micros: u64) -> (r: Duration)
        ensures
            r.spec_micros() == micros,
    {
        Duration { micros }
    }

    pub fn micros(&self) -> (r: u64)
        ensures
            r == self.spec_micros(),
    {
        self.micros
    }

    /// Whole milliseconds, truncating the sub-millisecond remainder.
    pub fn to_millis(&self) -> (r: u64)
        ensures
            r == self.spec_micros() / 1000,
    {
        self.micros / 1000
    }
}

} // verus!
