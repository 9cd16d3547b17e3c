//! A bound on the number of backend sessions that are open at once.
//!
//! The pool counts; it holds no connection. Whoever runs an exchange checks
//! a session out before it connects and checks it in when the exchange has
//! ended, however it ended.
use vstd::prelude::*;

verus! {

/// The pool as the contracts see it.
pub struct PoolView {
    pub capacity: nat,
    pub in_use: nat,
}

/// A counter of sessions in use, never above its capacity.
#[derive(Debug)]
pub struct SessionPool {
    capacity: usize,
    in_use: usize,
}

impl View for SessionPool {
    type V = PoolView;

    closed spec fn view(&self) -> PoolView {
        PoolView { capacity: self.capacity as nat, in_use: self.in_use as nat }
    }
}

impl SessionPool {
    /// No more sessions are out than the pool has.
    pub open spec fn wf(&self) -> bool {
        self@.in_use <= self@.capacity
    }

    /// A pool of `capacity` sessions, none of them in use.
    pub fn new(capacity: usize) -> (r: SessionPool)
        ensures
            r.wf(),
            r@ == (PoolView { capacity: capacity as nat, in_use: 0 }),
    {
        SessionPool { capacity: capacity, in_use: 0 }
    }

    /// How many sessions the pool has.
    pub fn capacity(&self) -> (r: usize)
        ensures
            r == self@.capacity,
    {
        self.capacity
    }

    /// How many sessions are out.
    pub fn in_use(&self) -> (r: usize)
        ensures
            r == self@.in_use,
    {
        self.in_use
    }

    /// How many sessions are left.
    pub fn available(&self) -> (r: usize)
        requires
            self.wf(),
        ensures
            r == self@.capacity - self@.in_use,
    {
        self.capacity - self.in_use
    }

    /// Takes a session if one is left, and says whether it did.
    pub fn checkout(&mut self) -> (r: bool)
        requires
            old(self).wf(),
        ensures
            final(self).wf(),
            r == (old(self)@.in_use < old(self)@.capacity),
            final(self)@.capacity == old(self)@.capacity,
            final(self)@.in_use == old(self)@.in_use + if r {
                1nat
            } else {
                0nat
            },
    {
        if self.in_use < self.capacity {
            self.in_use = self.in_use + 1;
            true
        } else {
            false
        }
    }

    /// Gives a session back if one is out, and says whether it did.
    pub fn checkin(&mut self) -> (r: bool)
        requires
            old(self).wf(),
        ensures
            final(self).wf(),
            r == (old(self)@.in_use > 0),
            final(self)@.capacity == old(self)@.capacity,
            final(self)@.in_use == old(self)@.in_use - if r {
                1nat
            } else {
                0nat
            },
    {
        if self.in_use > 0 {
            self.in_use = self.in_use - 1;
            true
        } else {
            false
        }
    }
}

} // verus!
