//! A bounded, first-in/first-out message queue: a fixed-capacity ring of
//! slots shared by a producer side and a consumer side, with per-slot
//! occupancy flags, two slot cursors, level-triggered gates for the blocking
//! protocol, and handle counters that drive hang-up detection.
//!
//! The [`Channel`] type realizes the whole slot protocol on a single owner:
//! each operation claims the slot under its side's cursor, checks the
//! occupancy flag, moves the value, flips the flag, and signals the opposite
//! gate, exactly as the shared, multi-threaded embedding of the queue does.
//! Cursor arithmetic is modular: a cursor is kept reduced modulo the
//! capacity, so that advancing it can never overflow or corrupt slot
//! indexing.
//!
//! On the hang-up path of a blocking receive the read cursor is left
//! unchanged, so a value deposited by a producer that appears later is not
//! skipped.

use vstd::arithmetic::div_mod::{
    lemma_add_mod_noop, lemma_mod_bound, lemma_mod_equivalence, lemma_mod_self_0, lemma_mod_twice,
    lemma_small_mod,
};
use vstd::prelude::*;

pub mod errors;
pub mod iterator;
pub mod laws;
pub mod waiter;

use errors::{ErrorCause, RecvError, SendError};
use waiter::Waiter;

verus! {

/// The slot index indicated by cursor position `rc` advanced by `k` claims,
/// in a ring of `n` slots.
pub open spec fn slot_of(rc: int, k: int, n: int) -> int {
    (rc + k) % n
}

/// A slot index is always within the ring.
pub proof fn lemma_slot_in_range(rc: int, k: int, n: int)
    requires
        0 < n,
    ensures
        0 <= slot_of(rc, k, n) < n,
{
    lemma_mod_bound(rc + k, n);
}

/// Advancing a cursor never leaves the slot sequence: claiming `a` slots and
/// then `b` more lands on the same slot as claiming `a + b` at once.
pub proof fn lemma_slot_merge(rc: int, a: int, b: int, n: int)
    requires
        0 < n,
    ensures
        slot_of(slot_of(rc, a, n), b, n) == slot_of(rc, a + b, n),
{
    let y = (rc + a) % n;
    lemma_add_mod_noop(rc + a, b, n);
    lemma_add_mod_noop(y, b, n);
    lemma_mod_twice(rc + a, n);
}

/// A cursor already reduced modulo the capacity names its own slot.
pub proof fn lemma_slot_zero(rc: int, n: int)
    requires
        0 <= rc < n,
    ensures
        slot_of(rc, 0, n) == rc,
{
    lemma_small_mod(rc as nat, n as nat);
}

/// Two claims within one window of the capacity target distinct slots: the
/// fetch-and-add protocol keeps competing claims disjoint.
pub proof fn lemma_slot_distinct(rc: int, k1: int, k2: int, n: int)
    requires
        0 < n,
        0 <= k1 < k2,
        k2 - k1 < n,
    ensures
        slot_of(rc, k1, n) != slot_of(rc, k2, n),
{
    lemma_mod_equivalence(rc + k2, rc + k1, n);
    lemma_small_mod((k2 - k1) as nat, n as nat);
}

/// One storage cell of the ring, together with its occupancy flag.
///
/// The cell holds a live value exactly when the flag is set; the flag is the
/// sole synchronization point for handing a slot from one side to the other.
pub struct Node<T> {
    data: Option<T>,
    hot: bool,
}

impl<T> Node<T> {
    /// The occupancy flag.
    pub closed spec fn is_hot(&self) -> bool {
        self.hot
    }

    /// The stored value, if any.
    pub closed spec fn val(&self) -> Option<T> {
        self.data
    }

    /// A slot is consistent when it holds a value exactly if it is occupied.
    pub open spec fn inv(&self) -> bool {
        self.is_hot() <==> self.val() is Some
    }

    /// Read the occupancy flag.
    pub fn hot(&self) -> (r: bool)
        ensures
            r == self.is_hot(),
    {
        self.hot
    }

    /// Write the occupancy flag.
    pub fn set_hot(&mut self, hot: bool)
        ensures
            final(self).is_hot() == hot,
            final(self).val() == old(self).val(),
    {
        self.hot = hot;
    }

    /// Take the stored value out of the cell, leaving it empty.
    pub fn data(&mut self) -> (r: Option<T>)
        ensures
            r == old(self).val(),
            final(self).val() is None,
            final(self).is_hot() == old(self).is_hot(),
    {
        self.data.take()
    }

    /// Deposit a value into the cell.
    pub fn store(&mut self, value: T)
        ensures
            final(self).val() == Some(value),
            final(self).is_hot() == old(self).is_hot(),
    {
        self.data = Some(value);
    }
}

impl<T> Default for Node<T> {
    /// A fresh slot: empty and unoccupied.
    fn default() -> (r: Self)
        ensures
            !r.is_hot(),
            r.val() is None,
    {
        Node { data: None, hot: false }
    }
}

/// A bounded multi-producer, multi-consumer queue: a fixed ring of
/// [`Node`] slots, a write cursor and a read cursor (each kept reduced
/// modulo the capacity), the two handle counters, and the two gates of the
/// blocking protocol.
///
/// The queue is created with the initial producer/consumer pair already
/// accounted for: both handle counters start at one. Handles created or
/// released later are recorded through [`Channel::add_sender`],
/// [`Channel::remove_sender`], [`Channel::add_receiver`] and
/// [`Channel::remove_receiver`]; the last handle of a side to go away
/// signals the opposite gate, so that a blocked peer re-checks the hang-up
/// condition.
pub struct Channel<T> {
    data: Vec<Node<T>>,
    write_cursor: usize,
    read_cursor: usize,
    senders: usize,
    receivers: usize,
    writable: Waiter,
    readable: Waiter,
    contents: Ghost<Seq<T>>,
}

impl<T> Channel<T> {
    /// The fixed number of slots, chosen at construction.
    pub closed spec fn capacity(&self) -> nat {
        self.data@.len()
    }

    /// The values currently in the queue, oldest first.
    pub closed spec fn queued(&self) -> Seq<T> {
        self.contents@
    }

    /// The number of live producer handles.
    pub closed spec fn senders(&self) -> nat {
        self.senders as nat
    }

    /// The number of live consumer handles.
    pub closed spec fn receivers(&self) -> nat {
        self.receivers as nat
    }

    /// The predicate of the `writable` side: blocking senders wait on it.
    pub closed spec fn is_writable(&self) -> bool {
        self.writable.is_set()
    }

    /// The predicate of the `readable` side: blocking receivers wait on it.
    pub closed spec fn is_readable(&self) -> bool {
        self.readable.is_set()
    }

    /// Well-formedness: the queued values occupy exactly the slots between
    /// the read cursor and the write cursor, in claim order; every other
    /// slot is empty; and each gate is set whenever the condition its
    /// waiters re-check could let them proceed.
    pub closed spec fn inv(&self) -> bool {
        let n = self.data@.len() as int;
        let rc = self.read_cursor as int;
        let q = self.contents@;
        &&& n >= 1
        &&& 0 <= rc < n
        &&& q.len() <= n
        &&& self.write_cursor as int == slot_of(rc, q.len() as int, n)
        &&& forall|k: int|
            0 <= k < q.len() ==> {
                &&& self.data@[#[trigger] slot_of(rc, k, n)].is_hot()
                &&& self.data@[slot_of(rc, k, n)].val() == Some(q[k])
            }
        &&& forall|k: int|
            q.len() <= k < n ==> {
                &&& !self.data@[#[trigger] slot_of(rc, k, n)].is_hot()
                &&& self.data@[slot_of(rc, k, n)].val() is None
            }
        &&& (q.len() < n ==> self.writable.is_set())
        &&& (q.len() > 0 ==> self.readable.is_set())
        &&& (self.senders == 0 ==> self.readable.is_set())
    }

    /// A fresh queue of `capacity` slots, all empty, with the write and read
    /// cursors at zero, the `writable` gate set, the `readable` gate clear,
    /// and the initial producer/consumer pair counted.
    pub fn new(capacity: usize) -> (r: Self)
        requires
            capacity >= 1,
        ensures
            r.inv(),
            r.capacity() == capacity,
            r.queued() == Seq::<T>::empty(),
            r.senders() == 1,
            r.receivers() == 1,
            r.is_writable(),
            !r.is_readable(),
    {
        let mut data: Vec<Node<T>> = Vec::new();
        let mut i: usize = 0;
        while i < capacity
            invariant
                i <= capacity,
                data@.len() == i,
                forall|j: int|
                    0 <= j < i ==> !(#[trigger] data@[j]).is_hot() && data@[j].val() is None,
            decreases capacity - i,
        {
            data.push(Default::default());
            i = i + 1;
        }
        let r = Channel {
            data,
            write_cursor: 0,
            read_cursor: 0,
            senders: 1,
            receivers: 1,
            writable: Waiter::new(true),
            readable: Waiter::new(false),
            contents: Ghost(Seq::empty()),
        };
        proof {
            let n = r.data@.len() as int;
            lemma_small_mod(0, n as nat);
            assert forall|k: int| 0 <= k < n implies !(#[trigger] r.data@[slot_of(
                0,
                k,
                n,
            )]).is_hot() && r.data@[slot_of(0, k, n)].val() is None by {
                lemma_small_mod(k as nat, n as nat);
            }
        }
        r
    }

    /// Number of live producer handles, as the hang-up checks read it.
    pub fn sender_count(&self) -> (r: usize)
        ensures
            r == self.senders(),
    {
        self.senders
    }

    /// Number of live consumer handles, as the hang-up checks read it.
    pub fn receiver_count(&self) -> (r: usize)
        ensures
            r == self.receivers(),
    {
        self.receivers
    }

    /// Record one more producer handle (a clone of an existing one).
    pub fn add_sender(&mut self)
        requires
            old(self).inv(),
            old(self).senders() < usize::MAX,
        ensures
            final(self).inv(),
            final(self).senders() == old(self).senders() + 1,
            final(self).receivers() == old(self).receivers(),
            final(self).queued() == old(self).queued(),
            final(self).capacity() == old(self).capacity(),
            final(self).is_writable() == old(self).is_writable(),
            final(self).is_readable() == old(self).is_readable(),
    {
        self.senders = self.senders + 1;
    }

    /// Record the release of one producer handle. The last producer to go
    /// away signals the `readable` gate, so that a consumer blocked in a
    /// wait re-checks the hang-up condition instead of sleeping forever.
    pub fn remove_sender(&mut self)
        requires
            old(self).inv(),
            old(self).senders() > 0,
        ensures
            final(self).inv(),
            final(self).senders() == old(self).senders() - 1,
            final(self).receivers() == old(self).receivers(),
            final(self).queued() == old(self).queued(),
            final(self).capacity() == old(self).capacity(),
            final(self).is_writable() == old(self).is_writable(),
            old(self).senders() == 1 ==> final(self).is_readable(),
            old(self).senders() > 1 ==> final(self).is_readable() == old(self).is_readable(),
    {
        self.senders = self.senders - 1;
        if self.senders == 0 {
            self.readable.set();
        }
    }

    /// Record one more consumer handle (a clone of an existing one).
    pub fn add_receiver(&mut self)
        requires
            old(self).inv(),
            old(self).receivers() < usize::MAX,
        ensures
            final(self).inv(),
            final(self).receivers() == old(self).receivers() + 1,
            final(self).senders() == old(self).senders(),
            final(self).queued() == old(self).queued(),
            final(self).capacity() == old(self).capacity(),
            final(self).is_writable() == old(self).is_writable(),
            final(self).is_readable() == old(self).is_readable(),
    {
        self.receivers = self.receivers + 1;
    }

    /// Record the release of one consumer handle. The last consumer to go
    /// away signals the `writable` gate, so that a producer blocked in a
    /// wait re-checks the hang-up condition instead of sleeping forever.
    pub fn remove_receiver(&mut self)
        requires
            old(self).inv(),
            old(self).receivers() > 0,
        ensures
            final(self).inv(),
            final(self).receivers() == old(self).receivers() - 1,
            final(self).senders() == old(self).senders(),
            final(self).queued() == old(self).queued(),
            final(self).capacity() == old(self).capacity(),
            final(self).is_readable() == old(self).is_readable(),
            old(self).receivers() == 1 ==> final(self).is_writable(),
            old(self).receivers() > 1 ==> final(self).is_writable() == old(self).is_writable(),
    {
        self.receivers = self.receivers - 1;
        if self.receivers == 0 {
            self.writable.set();
        }
    }

    /// Hang-up check of the producer side: with no live consumer, a send
    /// would deposit a value nobody can ever take out, so it fails at once
    /// and hands the value back.
    fn check_receivers(&self, value: T) -> (r: Result<T, SendError<T>>)
        ensures
            self.receivers() == 0 ==> r == Err::<T, SendError<T>>(
                SendError(value, ErrorCause::HungUp),
            ),
            self.receivers() > 0 ==> r == Ok::<T, SendError<T>>(value),
    {
        if self.receivers == 0 {
            Err(SendError(value, ErrorCause::HungUp))
        } else {
            Ok(value)
        }
    }

    /// Hang-up check of the consumer side: reports whether any producer
    /// handle is still live.
    fn check_senders(&self) -> (r: Result<(), RecvError>)
        ensures
            self.senders() == 0 ==> r == Err::<(), RecvError>(RecvError(ErrorCause::HungUp)),
            self.senders() > 0 ==> r == Ok::<(), RecvError>(()),
    {
        if self.senders == 0 {
            Err(RecvError(ErrorCause::HungUp))
        } else {
            Ok(())
        }
    }

    /// The slot index under a cursor, and the cursor advanced by one claim.
    /// Both cursors are kept reduced modulo the capacity, so the advance is
    /// itself modular and can never overflow.
    fn claim(&self, cursor: usize) -> (r: (usize, usize))
        requires
            self.inv(),
            cursor < self.capacity(),
        ensures
            r.0 == cursor as int,
            r.1 == slot_of(cursor as int, 1, self.capacity() as int),
            r.1 < self.capacity(),
    {
        let n = self.data.len();
        let next = if cursor + 1 == n {
            0
        } else {
            cursor + 1
        };
        proof {
            let ni = n as int;
            if cursor + 1 == n {
                lemma_mod_self_0(ni);
            } else {
                lemma_small_mod((cursor + 1) as nat, n as nat);
            }
        }
        (cursor, next)
    }

    /// Blocking send: deposit `value` at the slot under the write cursor,
    /// mark it occupied, and signal the `readable` gate.
    ///
    /// With no live consumer the send fails with a hung-up error carrying
    /// the value back, and changes nothing. Otherwise the single owner of
    /// this queue can never be made to wait by a peer, so a send that would
    /// have to block forever — a full queue — is excluded by precondition;
    /// the wait it runs through is then always already satisfied.
    pub fn write(&mut self, value: T) -> (r: Result<(), SendError<T>>)
        requires
            old(self).inv(),
            old(self).receivers() == 0 || old(self).queued().len() < old(self).capacity(),
        ensures
            final(self).inv(),
            old(self).receivers() == 0 ==> r == Err::<(), SendError<T>>(
                SendError(value, ErrorCause::HungUp),
            ) && *final(self) == *old(self),
            old(self).receivers() > 0 ==> {
                &&& r == Ok::<(), SendError<T>>(())
                &&& final(self).queued() == old(self).queued().push(value)
                &&& final(self).is_readable()
                &&& final(self).is_writable() == old(self).is_writable()
                &&& final(self).senders() == old(self).senders()
                &&& final(self).receivers() == old(self).receivers()
                &&& final(self).capacity() == old(self).capacity()
            },
    {
        let value = match self.check_receivers(value) {
            Ok(v) => v,
            Err(e) => {
                return Err(e);
            },
        };
        self.writable.wait();

        proof {
            let n = self.data@.len() as int;
            let rc = self.read_cursor as int;
            let len = self.contents@.len() as int;
            lemma_slot_in_range(rc, len, n);
            lemma_slot_merge(rc, len, 1, n);
        }
        let (idx, next) = self.claim(self.write_cursor);
        self.write_cursor = next;

        if self.data[idx].hot() {
            // The producer has run ahead of every consumer. A peer must
            // empty a slot before this send can go on; the single owner has
            // no peer, and the precondition rules the case out.
            self.writable.reset();
            self.writable.wait();
        }

        let node = &mut self.data[idx];
        node.store(value);
        node.set_hot(true);
        self.readable.set();
        proof {
            let n = self.data@.len() as int;
            let rc = self.read_cursor as int;
            let q = self.contents@;
            let len = q.len() as int;
            self.contents@ = q.push(value);
            assert forall|k: int| 0 <= k < len implies slot_of(rc, k, n) != idx as int by {
                lemma_slot_distinct(rc, k, len, n);
            }
            assert forall|k: int| len + 1 <= k < n implies slot_of(rc, k, n) != idx as int by {
                lemma_slot_distinct(rc, len, k, n);
            }
        }
        Ok(())
    }

    /// Non-blocking send: peek at the slot under the write cursor; if it is
    /// occupied the queue is full, so reset the `writable` gate and fail
    /// with a would-block error carrying the value back. Otherwise claim
    /// the slot, deposit, mark occupied, and signal `readable`.
    ///
    /// Never waits on a gate: the caller's thread is never parked.
    pub fn try_write(&mut self, value: T) -> (r: Result<(), SendError<T>>)
        requires
            old(self).inv(),
        ensures
            final(self).inv(),
            old(self).receivers() == 0 ==> r == Err::<(), SendError<T>>(
                SendError(value, ErrorCause::HungUp),
            ) && *final(self) == *old(self),
            old(self).receivers() > 0 && old(self).queued().len() == old(self).capacity() ==> {
                &&& r == Err::<(), SendError<T>>(SendError(value, ErrorCause::WouldBlock))
                &&& final(self).queued() == old(self).queued()
                &&& !final(self).is_writable()
                &&& final(self).is_readable() == old(self).is_readable()
                &&& final(self).senders() == old(self).senders()
                &&& final(self).receivers() == old(self).receivers()
                &&& final(self).capacity() == old(self).capacity()
            },
            old(self).receivers() > 0 && old(self).queued().len() < old(self).capacity() ==> {
                &&& r == Ok::<(), SendError<T>>(())
                &&& final(self).queued() == old(self).queued().push(value)
                &&& final(self).is_readable()
                &&& final(self).is_writable() == old(self).is_writable()
                &&& final(self).senders() == old(self).senders()
                &&& final(self).receivers() == old(self).receivers()
                &&& final(self).capacity() == old(self).capacity()
            },
    {
        let value = match self.check_receivers(value) {
            Ok(v) => v,
            Err(e) => {
                return Err(e);
            },
        };

        proof {
            let n = self.data@.len() as int;
            let rc = self.read_cursor as int;
            let len = self.contents@.len() as int;
            lemma_slot_in_range(rc, len, n);
            lemma_slot_merge(rc, len, 1, n);
            if len == n {
                lemma_slot_zero(rc, n);
                lemma_mod_self_0(n);
                lemma_small_mod(rc as nat, n as nat);
                lemma_add_mod_noop(rc, n, n);
            }
        }
        let (idx, next) = self.claim(self.write_cursor);
        if self.data[idx].hot() {
            // Full: every slot in the window is occupied, and the one under
            // the write cursor is the oldest of them.
            self.writable.reset();
            return Err(SendError(value, ErrorCause::WouldBlock));
        }
        // The single owner always wins the cursor exchange: no competing
        // producer can have claimed the slot between the peek and here.
        self.write_cursor = next;

        let node = &mut self.data[idx];
        node.store(value);
        node.set_hot(true);
        self.readable.set();
        proof {
            let n = self.data@.len() as int;
            let rc = self.read_cursor as int;
            let q = self.contents@;
            let len = q.len() as int;
            self.contents@ = q.push(value);
            assert forall|k: int| 0 <= k < len implies slot_of(rc, k, n) != idx as int by {
                lemma_slot_distinct(rc, k, len, n);
            }
            assert forall|k: int| len + 1 <= k < n implies slot_of(rc, k, n) != idx as int by {
                lemma_slot_distinct(rc, len, k, n);
            }
        }
        Ok(())
    }

    /// Blocking receive: extract the value at the slot under the read
    /// cursor, clear its occupancy, and signal the `writable` gate.
    ///
    /// A queue that still holds values delivers the oldest one, whether or
    /// not any producer is live. An empty queue whose producer side has
    /// hung up fails with a hung-up error, leaving the read cursor where it
    /// was. An empty queue with live producers would have to wait for a
    /// peer, which the single owner has none of; that case is excluded by
    /// precondition, so its wait is always already satisfied.
    pub fn read(&mut self) -> (r: Result<T, RecvError>)
        requires
            old(self).inv(),
            old(self).queued().len() > 0 || old(self).senders() == 0,
        ensures
            final(self).inv(),
            old(self).queued().len() > 0 ==> {
                &&& r == Ok::<T, RecvError>(old(self).queued()[0])
                &&& final(self).queued() == old(self).queued().drop_first()
                &&& final(self).is_writable()
                &&& final(self).is_readable() == old(self).is_readable()
                &&& final(self).senders() == old(self).senders()
                &&& final(self).receivers() == old(self).receivers()
                &&& final(self).capacity() == old(self).capacity()
            },
            old(self).queued().len() == 0 ==> r == Err::<T, RecvError>(
                RecvError(ErrorCause::HungUp),
            ) && *final(self) == *old(self),
    {
        self.readable.wait();

        let (idx, next) = self.claim(self.read_cursor);
        proof {
            let n = self.data@.len() as int;
            let rc = self.read_cursor as int;
            lemma_slot_zero(rc, n);
        }
        if !self.data[idx].hot() {
            // Empty. With a live producer a peer would eventually fill the
            // slot; here only a hang-up can be reported.
            if let Err(e) = self.check_senders() {
                return Err(e);
            }
            self.readable.reset();
            self.readable.wait();
        }

        self.read_cursor = next;
        let node = &mut self.data[idx];
        let v = node.data();
        node.set_hot(false);
        self.writable.set();
        proof {
            let n = self.data@.len() as int;
            let rc = old(self).read_cursor as int;
            let q = self.contents@;
            let len = q.len() as int;
            self.contents@ = q.drop_first();
            assert forall|k: int| 0 <= k < n - 1 implies slot_of(self.read_cursor as int, k, n)
                == slot_of(rc, k + 1, n) by {
                lemma_slot_merge(rc, 1, k, n);
            }
            assert forall|k: int| 0 <= k < len - 1 implies #[trigger] slot_of(rc, k + 1, n) != rc by {
                lemma_slot_distinct(rc, 0, k + 1, n);
            }
            lemma_slot_merge(rc, 1, len - 1, n);
            lemma_slot_merge(rc, 1, n - 1, n);
            lemma_small_mod(rc as nat, n as nat);
            lemma_add_mod_noop(rc, n, n);
            lemma_mod_self_0(n);
        }
        Ok(v.unwrap())
    }

    /// Non-blocking receive: peek at the slot under the read cursor; if it
    /// is empty, fail with a hung-up error when no producer is live, and
    /// otherwise reset the `readable` gate and fail with a would-block
    /// error. An occupied slot is claimed, emptied, and the `writable` gate
    /// signalled.
    ///
    /// Never waits on a gate: the caller's thread is never parked.
    pub fn try_read(&mut self) -> (r: Result<T, RecvError>)
        requires
            old(self).inv(),
        ensures
            final(self).inv(),
            old(self).queued().len() > 0 ==> {
                &&& r == Ok::<T, RecvError>(old(self).queued()[0])
                &&& final(self).queued() == old(self).queued().drop_first()
                &&& final(self).is_writable()
                &&& final(self).is_readable() == old(self).is_readable()
                &&& final(self).senders() == old(self).senders()
                &&& final(self).receivers() == old(self).receivers()
                &&& final(self).capacity() == old(self).capacity()
            },
            old(self).queued().len() == 0 && old(self).senders() == 0 ==> r == Err::<
                T,
                RecvError,
            >(RecvError(ErrorCause::HungUp)) && *final(self) == *old(self),
            old(self).queued().len() == 0 && old(self).senders() > 0 ==> {
                &&& r == Err::<T, RecvError>(RecvError(ErrorCause::WouldBlock))
                &&& final(self).queued() == old(self).queued()
                &&& !final(self).is_readable()
                &&& final(self).is_writable() == old(self).is_writable()
                &&& final(self).senders() == old(self).senders()
                &&& final(self).receivers() == old(self).receivers()
                &&& final(self).capacity() == old(self).capacity()
            },
    {
        let (idx, next) = self.claim(self.read_cursor);
        proof {
            let n = self.data@.len() as int;
            let rc = self.read_cursor as int;
            lemma_slot_zero(rc, n);
        }
        if !self.data[idx].hot() {
            if let Err(e) = self.check_senders() {
                return Err(e);
            }
            self.readable.reset();
            return Err(RecvError(ErrorCause::WouldBlock));
        }
        // The single owner always wins the cursor exchange: no competing
        // consumer can have claimed the slot between the peek and here.
        self.read_cursor = next;
        let node = &mut self.data[idx];
        let v = node.data();
        node.set_hot(false);
        self.writable.set();
        proof {
            let n = self.data@.len() as int;
            let rc = old(self).read_cursor as int;
            let q = self.contents@;
            let len = q.len() as int;
            self.contents@ = q.drop_first();
            assert forall|k: int| 0 <= k < n - 1 implies slot_of(self.read_cursor as int, k, n)
                == slot_of(rc, k + 1, n) by {
                lemma_slot_merge(rc, 1, k, n);
            }
            assert forall|k: int| 0 <= k < len - 1 implies #[trigger] slot_of(rc, k + 1, n) != rc by {
                lemma_slot_distinct(rc, 0, k + 1, n);
            }
            lemma_slot_merge(rc, 1, len - 1, n);
            lemma_slot_merge(rc, 1, n - 1, n);
            lemma_small_mod(rc as nat, n as nat);
            lemma_add_mod_noop(rc, n, n);
            lemma_mod_self_0(n);
        }
        Ok(v.unwrap())
    }
}

} // verus!
