//! The concurrency limiter: a counting admission gate that never lets more
//! than its configured bound of workers run at once.
//!
//! The limiter is the decision core of the admission gate: `try_acquire`
//! grants a slot exactly when one is free, `release` returns it. A host that
//! schedules tasks asynchronously may block on an equivalent counting
//! semaphore for the waiting itself and mirror each admission and each
//! release here, so that the verified counter tracks every worker: a slot
//! taken before a worker starts, returned on every exit path, including
//! failure.

use vstd::prelude::*;

verus! {

/// A counting admission gate with a fixed positive bound.
pub struct Limiter {
    max_concurrent: usize,
    in_flight: usize,
}

impl Limiter {
    /// The configured admission bound.
    pub closed spec fn spec_max_concurrent(&self) -> int {
        self.max_concurrent as int
    }

    /// How many holders are currently admitted.
    pub closed spec fn spec_in_flight(&self) -> int {
        self.in_flight as int
    }

    /// At least one slot is configured, and admissions fit within the slots.
    pub open spec fn wf(&self) -> bool {
        1 <= self.spec_max_concurrent() && self.spec_in_flight() <= self.spec_max_concurrent()
    }

    pub fn new(max_concurrent: usize) -> (l: Self)
        requires
            max_concurrent >= 1,
        ensures
            l.wf(),
            l.spec_max_concurrent() == max_concurrent,
            l.spec_in_flight() == 0,
    {
        Limiter { max_concurrent, in_flight: 0 }
    }

    /// Ask for a slot. A slot is granted exactly when fewer than
    /// `max_concurrent` holders are admitted; the absence of a free slot is
    /// not an error, only a reason for the caller to wait and ask again.
    pub fn try_acquire(&mut self) -> (admitted: bool)
        requires
            old(self).wf(),
        ensures
            final(self).wf(),
            final(self).spec_max_concurrent() == old(self).spec_max_concurrent(),
            admitted <==> old(self).spec_in_flight() < old(self).spec_max_concurrent(),
            admitted ==> final(self).spec_in_flight() == old(self).spec_in_flight() + 1,
            !admitted ==> final(self).spec_in_flight() == old(self).spec_in_flight(),
    {
        if self.in_flight < self.max_concurrent {
            self.in_flight = self.in_flight + 1;
            true
        } else {
            false
        }
    }

    /// Return a slot. Only an admitted holder may return one.
    pub fn release(&mut self)
        requires
            old(self).wf(),
            old(self).spec_in_flight() >= 1,
        ensures
            final(self).wf(),
            final(self).spec_max_concurrent() == old(self).spec_max_concurrent(),
            final(self).spec_in_flight() == old(self).spec_in_flight() - 1,
    {
        self.in_flight = self.in_flight - 1;
    }

    pub fn max_concurrent(&self) -> (m: usize)
        ensures
            m == self.spec_max_concurrent(),
    {
        self.max_concurrent
    }

    pub fn in_flight(&self) -> (n: usize)
        ensures
            n == self.spec_in_flight(),
    {
        self.in_flight
    }
}

/// Law: a well-formed limiter never has more admitted holders than its
/// configured bound, whatever the batch size — `new` establishes
/// well-formedness and `try_acquire`/`release` preserve it, so every
/// reachable gate state satisfies this bound.
pub proof fn lemma_admitted_within_bound(l: Limiter)
    requires
        l.wf(),
    ensures
        l.spec_in_flight() <= l.spec_max_concurrent(),
{
}

} // verus!
