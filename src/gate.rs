//! The admission gate: a counting pool of permits that bounds how many detail
//! fetches are in flight at once.
use vstd::prelude::*;

verus! {

/// A pool of `capacity` permits, of which `in_flight` are handed out. `peak`
/// is the largest number ever handed out at once.
pub struct Gate {
    pub capacity: usize,
    pub in_flight: usize,
    pub peak: usize,
}

impl Gate {
    /// Permits handed out never exceed the pool, nor the recorded peak.
    pub open spec fn wf(&self) -> bool {
        &&& 0 < self.capacity
        &&& self.in_flight <= self.peak
        &&& self.peak <= self.capacity
    }

    /// A gate of `max_in_flight` permits, none handed out.
    pub fn new(max_in_flight: usize) -> (r: Gate)
        requires
            max_in_flight > 0,
        ensures
            r.wf(),
            r.capacity == max_in_flight,
            r.in_flight == 0,
            r.peak == 0,
    {
        Gate { capacity: max_in_flight, in_flight: 0, peak: 0 }
    }

    /// Whether a permit is free now.
    pub fn has_free(&self) -> (r: bool)
        ensures
            r == (self.in_flight < self.capacity),
    {
        self.in_flight < self.capacity
    }

    /// Hands out a permit if one is free; reports whether it did.
    pub fn try_acquire(&mut self) -> (r: bool)
        requires
            old(self).wf(),
        ensures
            final(self).wf(),
            final(self).capacity == old(self).capacity,
            r == (old(self).in_flight < old(self).capacity),
            r ==> final(self).in_flight == old(self).in_flight + 1,
            !r ==> final(self).in_flight == old(self).in_flight,
            final(self).peak == if final(self).in_flight > old(self).peak {
                final(self).in_flight
            } else {
                old(self).peak
            },
    {
        if self.in_flight < self.capacity {
            self.in_flight = self.in_flight + 1;
            if self.in_flight > self.peak {
                self.peak = self.in_flight;
            }
            true
        } else {
            false
        }
    }

    /// Returns a permit to the pool; reports whether one was out.
    pub fn release(&mut self) -> (r: bool)
        requires
            old(self).wf(),
        ensures
            final(self).wf(),
            final(self).capacity == old(self).capacity,
            final(self).peak == old(self).peak,
            r == (old(self).in_flight > 0),
            r ==> final(self).in_flight == old(self).in_flight - 1,
            !r ==> final(self).in_flight == 0,
    {
        if self.in_flight > 0 {
            self.in_flight = self.in_flight - 1;
            true
        } else {
            false
        }
    }
}

} // verus!
