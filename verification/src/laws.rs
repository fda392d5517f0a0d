//! Global laws of the queue, stated over the spec-level views that the
//! operations' contracts use.
//!
//! A run of the queue is summarized by three sequences: `sent`, the values
//! of the successful sends in order; `received`, the values of the
//! successful receives in order; and `queued`, the view [`crate::Channel::queued`]
//! of the values currently in the queue, oldest first. The operations'
//! contracts say that a successful send pushes its value onto the queue view
//! and a successful receive removes exactly the view's front, so every run
//! preserves [`consistent`]; the laws below draw the global conclusions.

use vstd::prelude::*;
use vstd::seq_lib::lemma_multiset_commutative;

verus! {

/// The receive history followed by the values still queued is exactly the
/// send history.
pub open spec fn consistent<T>(sent: Seq<T>, received: Seq<T>, queued: Seq<T>) -> bool {
    received + queued == sent
}

/// A fresh queue starts consistent: nothing sent, nothing received,
/// nothing queued.
pub proof fn lemma_empty_history_consistent<T>()
    ensures
        consistent(Seq::<T>::empty(), Seq::<T>::empty(), Seq::<T>::empty()),
{
    assert(Seq::<T>::empty() + Seq::<T>::empty() =~= Seq::<T>::empty());
}

/// A successful send preserves consistency: the operation's contract appends
/// the value to the queue view, and the history records the same value as
/// sent.
pub proof fn lemma_send_preserves_history<T>(
    sent: Seq<T>,
    received: Seq<T>,
    queued: Seq<T>,
    value: T,
)
    requires
        consistent(sent, received, queued),
    ensures
        consistent(sent.push(value), received, queued.push(value)),
{
    assert(received + queued.push(value) =~= (received + queued).push(value));
}

/// A successful receive preserves consistency: the operation's contract
/// returns exactly the queue view's front and drops it, and the history
/// records that value as received.
pub proof fn lemma_recv_preserves_history<T>(sent: Seq<T>, received: Seq<T>, queued: Seq<T>)
    requires
        consistent(sent, received, queued),
        queued.len() > 0,
    ensures
        consistent(sent, received.push(queued[0]), queued.drop_first()),
{
    assert(received.push(queued[0]) + queued.drop_first() =~= received + queued);
}

/// Global first-in/first-out order: in every consistent run the received
/// values are exactly the first sent values, in the order they were sent.
pub proof fn lemma_fifo<T>(sent: Seq<T>, received: Seq<T>, queued: Seq<T>)
    requires
        consistent(sent, received, queued),
    ensures
        received == sent.take(received.len() as int),
{
    assert(received =~= sent.take(received.len() as int));
}

/// Conservation: in every consistent run the multiset of values sent is the
/// multiset of values received plus the multiset of values still queued —
/// no value is duplicated, and none is lost other than those still in the
/// queue (which the queue's destruction drops, once each).
pub proof fn lemma_conservation<T>(sent: Seq<T>, received: Seq<T>, queued: Seq<T>)
    requires
        consistent(sent, received, queued),
    ensures
        sent.to_multiset() == received.to_multiset().add(queued.to_multiset()),
{
    lemma_multiset_commutative(received, queued);
}

} // verus!
