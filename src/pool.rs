//! Admission control for the bounded task pool: a counting semaphore whose permits are
//! taken before a unit of work starts and given back when it ends, however it ends.
use vstd::prelude::*;

verus! {

/// How many units of work may run at once unless configured otherwise.
pub const DEFAULT_MAX_PAR: usize = 10;

/// The permits of a bounded task pool: `max` in all, `in_flight` of them handed out.
pub struct Pool {
    max: usize,
    in_flight: usize,
}

impl Pool {
    /// Well-formed: no more permits handed out than there are.
    pub closed spec fn wf(self) -> bool {
        self.in_flight <= self.max
    }

    /// The number of permits in all.
    pub closed spec fn limit(self) -> nat {
        self.max as nat
    }

    /// The number of permits handed out, that is of units of work running.
    pub closed spec fn running(self) -> nat {
        self.in_flight as nat
    }

    /// A pool with `max` permits, none handed out.
    pub fn new(max: usize) -> (p: Pool)
        ensures
            p.wf(),
            p.limit() == max,
            p.running() == 0,
    {
        Pool { max, in_flight: 0 }
    }

    /// Takes a permit if one is free. Returns whether one was taken.
    pub fn try_acquire(&mut self) -> (r: bool)
        requires
            old(self).wf(),
        ensures
            final(self).wf(),
            r == (old(self).running() < old(self).limit()),
            final(self).limit() == old(self).limit(),
            final(self).running() == if r {
                old(self).running() + 1
            } else {
                old(self).running()
            },
    {
        if self.in_flight < self.max {
            self.in_flight = self.in_flight + 1;
            true
        } else {
            false
        }
    }

    /// Gives back a permit when a unit of work has ended. Returns false, and changes
    /// nothing, when no permit was handed out.
    pub fn release(&mut self) -> (r: bool)
        requires
            old(self).wf(),
        ensures
            final(self).wf(),
            r == (old(self).running() > 0),
            final(self).limit() == old(self).limit(),
            final(self).running() == if r {
                old(self).running() - 1
            } else {
                old(self).running() as int
            },
    {
        if self.in_flight > 0 {
            self.in_flight = self.in_flight - 1;
            true
        } else {
            false
        }
    }

    /// The number of permits in all.
    pub fn max(&self) -> (r: usize)
        ensures
            r == self.limit(),
    {
        self.max
    }

    /// The number of units of work running.
    pub fn in_flight(&self) -> (r: usize)
        ensures
            r == self.running(),
    {
        self.in_flight
    }

    /// Whether no unit of work is running, so that the stage may return.
    pub fn is_idle(&self) -> (r: bool)
        ensures
            r == (self.running() == 0),
    {
        self.in_flight == 0
    }
}

/// At no instant does a pool have more units of work running than it has permits.
pub proof fn lemma_pool_bound(p: Pool)
    requires
        p.wf(),
    ensures
        p.running() <= p.limit(),
{
}

} // verus!
