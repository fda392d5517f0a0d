//! A level-triggered wait primitive with a boolean predicate.
//!
//! The queue owns two gates. Blocking senders wait on the `writable` gate
//! and blocking receivers on the `readable` gate; the opposite side sets a
//! gate whenever it makes progress, and the non-blocking paths reset a gate
//! when they observe that no progress is possible.
//!
//! In this single-owner realization the predicate is a plain boolean and
//! [`Waiter::wait`] requires the predicate to hold: with one owner there is
//! no peer that could ever set a cleared gate, so a wait on a cleared gate
//! could not return. An embedding that shares the queue among threads backs
//! each wait with a thread-parking primitive and re-checks slot occupancy
//! after every wakeup, as the queue operations here do.

use vstd::prelude::*;

verus! {

/// A level-triggered wait primitive: a single boolean predicate with
/// `wait`, `set` and `reset`.
pub struct Waiter {
    ready: bool,
}

impl Waiter {
    /// The current value of the predicate.
    pub closed spec fn is_set(&self) -> bool {
        self.ready
    }

    /// A fresh gate whose predicate starts at `value`.
    pub fn new(value: bool) -> (r: Self)
        ensures
            r.is_set() == value,
    {
        Waiter { ready: value }
    }

    /// Block until the predicate is true. Does not mutate the predicate.
    pub fn wait(&self)
        requires
            self.is_set(),
    {
    }

    /// Make the predicate false. Does not wake anyone.
    pub fn reset(&mut self)
        ensures
            !final(self).is_set(),
    {
        self.ready = false;
    }

    /// Make the predicate true, waking at most one waiter.
    pub fn set(&mut self)
        ensures
            final(self).is_set(),
    {
        self.ready = true;
    }
}

} // verus!
