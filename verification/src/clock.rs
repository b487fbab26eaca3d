//! The monotonic clock source, modelled as explicit state.
//!
//! The real counter is a read-only collaborator that only ever moves forward;
//! here it is a value the surrounding code owns and advances, so that tests
//! and callers can drive time explicitly.

use vstd::prelude::*;

verus! {

/// Ticks of the monotonic clock per second.
pub const HZ: u64 = 250;

/// The monotonic tick counter.
pub struct Clock {
    now: u64,
}

impl Clock {
    /// The current tick, as a mathematical value.
    pub closed spec fn time(self) -> u64 {
        self.now
    }

    /// A clock at tick zero.
    pub fn new() -> (c: Clock)
        ensures
            c.time() == 0,
    {
        Clock { now: 0 }
    }

    /// Reads the current tick count.
    pub fn jiffies(&self) -> (t: u64)
        ensures
            t == self.time(),
    {
        self.now
    }

    /// Moves the clock forward by `ticks`; it never moves backward.
    pub fn advance(&mut self, ticks: u64)
        requires
            old(self).time() + ticks <= u64::MAX,
        ensures
            final(self).time() == old(self).time() + ticks,
    {
        self.now = self.now + ticks;
    }
}

} // verus!
