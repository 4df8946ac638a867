//! Bounded pools of connection slots.
//!
//! Each direction of traffic owns a pool: ten slots for inbound
//! connections, five for outbound transfers.  A slot is held for the
//! whole life of one connection and released exactly once, on every
//! exit path; the number of live connections therefore never exceeds
//! the pool's capacity.

use vstd::prelude::*;

verus! {

/// A bounded admission pool: at most `capacity` slots are ever held at
/// the same time.
pub struct SlotPool {
    capacity: usize,
    in_use: usize,
}

impl SlotPool {
    /// The pool's invariant: the live count never exceeds the bound.
    pub closed spec fn wf(&self) -> bool {
        self.in_use <= self.capacity
    }

    /// How many slots the pool was created with.
    pub closed spec fn spec_capacity(&self) -> int {
        self.capacity as int
    }

    /// How many slots are currently held.
    pub closed spec fn spec_in_use(&self) -> int {
        self.in_use as int
    }

    /// An empty pool with the given bound.
    pub fn new(capacity: usize) -> (r: SlotPool)
        ensures
            r.wf(),
            r.spec_capacity() == capacity,
            r.spec_in_use() == 0,
    {
        SlotPool { capacity, in_use: 0 }
    }

    /// How many slots are currently held.
    pub fn in_use(&self) -> (r: usize)
        ensures
            r == self.spec_in_use(),
    {
        self.in_use
    }

    /// How many slots the pool was created with.
    pub fn capacity(&self) -> (r: usize)
        ensures
            r == self.spec_capacity(),
    {
        self.capacity
    }

    /// Take a slot if one is free.  A caller denied here must wait for
    /// a `release` before trying again; it may not proceed without a
    /// slot.
    pub fn try_acquire(&mut self) -> (granted: bool)
        requires
            old(self).wf(),
        ensures
            final(self).wf(),
            final(self).spec_capacity() == old(self).spec_capacity(),
            granted <==> old(self).spec_in_use() < old(self).spec_capacity(),
            granted ==> final(self).spec_in_use() == old(self).spec_in_use() + 1,
            !granted ==> final(self).spec_in_use() == old(self).spec_in_use(),
    {
        if self.in_use < self.capacity {
            self.in_use = self.in_use + 1;
            true
        } else {
            false
        }
    }

    /// Give a held slot back.
    pub fn release(&mut self)
        requires
            old(self).wf(),
            old(self).spec_in_use() > 0,
        ensures
            final(self).wf(),
            final(self).spec_capacity() == old(self).spec_capacity(),
            final(self).spec_in_use() == old(self).spec_in_use() - 1,
    {
        self.in_use = self.in_use - 1;
    }
}

/// The concurrency bound: a pool that satisfies its invariant — as
/// every pool handed out by `new`, `try_acquire` and `release` does —
/// never holds more live slots than its capacity.
pub proof fn lemma_slot_bound(p: SlotPool)
    requires
        p.wf(),
    ensures
        p.spec_in_use() <= p.spec_capacity(),
{
}

} // verus!
