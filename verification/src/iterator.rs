//! Lazy sequence views over the receiving end of a queue.
//!
//! Both views latch: once a step has reported end-of-stream, every later
//! step reports end-of-stream again, whatever happens to the queue, so a
//! caller composing them with a generic pipeline sees a well-defined end.

use crate::errors::RecvError;
use crate::Channel;
use vstd::prelude::*;

verus! {

/// A receiving end of a queue, as the iterator views drive it.
///
/// The contracts mirror the queue's own receive operations: a blocking
/// receive delivers the oldest pending value whenever one exists, and fails
/// only on an empty queue whose producer side has hung up; a non-blocking
/// receive additionally fails, without waiting, on an empty queue with live
/// producers.
pub trait Recv: Sized {
    /// The element type delivered.
    type Item;

    /// Well-formedness, carried through every operation.
    spec fn wf(&self) -> bool;

    /// The values currently pending, oldest first.
    spec fn pending(&self) -> Seq<Self::Item>;

    /// The number of live producer handles.
    spec fn producers(&self) -> nat;

    /// Blocking receive: delivers the oldest pending value, or reports the
    /// producer side's hang-up on an empty queue. An empty queue with live
    /// producers would have to wait for a peer and is excluded here, as in
    /// the queue's own blocking receive.
    fn recv(&mut self) -> (r: Result<Self::Item, RecvError>)
        requires
            old(self).wf(),
            old(self).pending().len() > 0 || old(self).producers() == 0,
        ensures
            final(self).wf(),
            old(self).pending().len() > 0 ==> {
                &&& r == Ok::<Self::Item, RecvError>(old(self).pending()[0])
                &&& final(self).pending() == old(self).pending().drop_first()
                &&& final(self).producers() == old(self).producers()
            },
            old(self).pending().len() == 0 ==> {
                &&& r is Err
                &&& final(self).pending() == old(self).pending()
                &&& final(self).producers() == old(self).producers()
            },
    ;

    /// Non-blocking receive: delivers the oldest pending value, or fails
    /// without waiting on an empty queue.
    fn try_recv(&mut self) -> (r: Result<Self::Item, RecvError>)
        requires
            old(self).wf(),
        ensures
            final(self).wf(),
            old(self).pending().len() > 0 ==> {
                &&& r == Ok::<Self::Item, RecvError>(old(self).pending()[0])
                &&& final(self).pending() == old(self).pending().drop_first()
                &&& final(self).producers() == old(self).producers()
            },
            old(self).pending().len() == 0 ==> {
                &&& r is Err
                &&& final(self).pending() == old(self).pending()
                &&& final(self).producers() == old(self).producers()
            },
    ;
}

impl<T> Recv for Channel<T> {
    type Item = T;

    open spec fn wf(&self) -> bool {
        self.inv()
    }

    open spec fn pending(&self) -> Seq<T> {
        self.queued()
    }

    open spec fn producers(&self) -> nat {
        self.senders()
    }

    fn recv(&mut self) -> (r: Result<T, RecvError>) {
        self.read()
    }

    fn try_recv(&mut self) -> (r: Result<T, RecvError>) {
        self.try_read()
    }
}

/// Blocking iterator over the values of a receiving end: each step performs
/// a blocking receive; a value is yielded on success, and any error ends the
/// stream for good.
pub struct Iter<R>(Option<R>);

impl<R> Iter<R> {
    /// The receiving end still driving this iterator, if the stream has not
    /// ended.
    pub closed spec fn inner(&self) -> Option<R> {
        self.0
    }

    /// A fresh blocking iterator over `receiver`.
    pub fn new(receiver: R) -> (r: Self)
        ensures
            r.inner() == Some(receiver),
    {
        Iter(Some(receiver))
    }
}

impl<R: Recv> Iter<R> {
    /// One blocking step: the oldest pending value, or end-of-stream on
    /// hang-up. Once the stream has ended, every later step returns
    /// end-of-stream again.
    pub fn next(&mut self) -> (r: Option<R::Item>)
        requires
            old(self).inner() matches Some(rx) ==> rx.wf() && (rx.pending().len() > 0
                || rx.producers() == 0),
        ensures
            old(self).inner() is None ==> r is None && final(self).inner() is None,
            old(self).inner() matches Some(rx) ==> {
                &&& rx.pending().len() > 0 ==> {
                    &&& r == Some(rx.pending()[0])
                    &&& final(self).inner() matches Some(rx2) && rx2.wf() && rx2.pending()
                        == rx.pending().drop_first() && rx2.producers() == rx.producers()
                }
                &&& rx.pending().len() == 0 ==> r is None && final(self).inner() is None
            },
    {
        match self.0.take() {
            None => None,
            Some(mut rx) => match rx.recv() {
                Ok(v) => {
                    self.0 = Some(rx);
                    Some(v)
                },
                Err(_) => None,
            },
        }
    }
}

/// Draining iterator over the pending values of a receiving end: each step
/// performs a non-blocking receive; a value is yielded on success, and any
/// error — empty queue or hang-up — ends the stream for good.
pub struct TryIter<R>(Option<R>);

impl<R> TryIter<R> {
    /// The receiving end still driving this iterator, if the stream has not
    /// ended.
    pub closed spec fn inner(&self) -> Option<R> {
        self.0
    }

    /// A fresh draining iterator over `receiver`.
    pub fn new(receiver: R) -> (r: Self)
        ensures
            r.inner() == Some(receiver),
    {
        TryIter(Some(receiver))
    }
}

impl<R: Recv> TryIter<R> {
    /// One draining step: the oldest pending value, or end-of-stream on an
    /// empty queue. Once the stream has ended, every later step returns
    /// end-of-stream again.
    pub fn next(&mut self) -> (r: Option<R::Item>)
        requires
            old(self).inner() matches Some(rx) ==> rx.wf(),
        ensures
            old(self).inner() is None ==> r is None && final(self).inner() is None,
            old(self).inner() matches Some(rx) ==> {
                &&& rx.pending().len() > 0 ==> {
                    &&& r == Some(rx.pending()[0])
                    &&& final(self).inner() matches Some(rx2) && rx2.wf() && rx2.pending()
                        == rx.pending().drop_first() && rx2.producers() == rx.producers()
                }
                &&& rx.pending().len() == 0 ==> r is None && final(self).inner() is None
            },
    {
        match self.0.take() {
            None => None,
            Some(mut rx) => match rx.try_recv() {
                Ok(v) => {
                    self.0 = Some(rx);
                    Some(v)
                },
                Err(_) => None,
            },
        }
    }
}

} // verus!
