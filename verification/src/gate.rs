//! The concurrency gate: a counting permit pool.
//!
//! The pool holds `limit` interchangeable permits. An operation may start
//! only after taking a permit and gives it back when it finishes, so at no
//! point are more than `limit` operations in flight. Acquisition never
//! fails; when no permit is free the caller simply has to wait (in this
//! model, [`Gate::try_acquire`] reports that no permit was free).

use vstd::prelude::*;

verus! {

/// The mathematical state of a [`Gate`]: its size and how many of its
/// permits are currently taken.
pub ghost struct GateModel {
    /// Number of permits the pool was created with.
    pub limit: nat,
    /// Number of permits currently handed out.
    pub taken: nat,
}

/// A counting permit pool sized at creation, bounding how many operations
/// may be in flight simultaneously.
pub struct Gate {
    limit: usize,
    taken: usize,
}

impl View for Gate {
    type V = GateModel;

    closed spec fn view(&self) -> GateModel {
        GateModel { limit: self.limit as nat, taken: self.taken as nat }
    }
}

impl Gate {
    /// A gate never hands out more permits than it holds.
    pub open spec fn inv(&self) -> bool {
        self@.taken <= self@.limit
    }

    /// Creates a pool of `limit` permits, all free.
    pub fn new(limit: usize) -> (g: Gate)
        requires
            limit > 0,
        ensures
            g.inv(),
            g@.limit == limit,
            g@.taken == 0,
    {
        Gate { limit, taken: 0 }
    }

    /// Takes one permit if one is free.
    ///
    /// Returns `true` after taking a permit; returns `false`, leaving the
    /// pool unchanged, only if every permit is already out.
    pub fn try_acquire(&mut self) -> (got: bool)
        requires
            old(self).inv(),
        ensures
            final(self).inv(),
            final(self)@.limit == old(self)@.limit,
            got ==> old(self)@.taken < old(self)@.limit
                && final(self)@.taken == old(self)@.taken + 1,
            !got ==> old(self)@.taken == old(self)@.limit
                && final(self)@.taken == old(self)@.taken,
    {
        if self.taken < self.limit {
            self.taken = self.taken + 1;
            true
        } else {
            false
        }
    }

    /// Returns one permit to the pool.
    pub fn release(&mut self)
        requires
            old(self).inv(),
            old(self)@.taken > 0,
        ensures
            final(self).inv(),
            final(self)@.limit == old(self)@.limit,
            final(self)@.taken == old(self)@.taken - 1,
    {
        self.taken = self.taken - 1;
    }

    /// How many permits are currently handed out.
    pub fn taken(&self) -> (n: usize)
        ensures
            n == self@.taken,
    {
        self.taken
    }

    /// How many permits the pool was created with.
    pub fn limit(&self) -> (n: usize)
        ensures
            n == self@.limit,
    {
        self.limit
    }
}

/// At no instant are more operations in flight than the pool has permits:
/// the invariant [`Gate::inv`] holds of a fresh gate and is preserved by
/// every operation on it, so every reachable gate state obeys this bound.
pub proof fn lemma_gate_bounds_in_flight(g: Gate)
    requires
        g.inv(),
    ensures
        g@.taken <= g@.limit,
{
}

} // verus!
