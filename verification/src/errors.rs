//! Error values returned by the queue operations.
//!
//! Both sides share the same two causes: the opposite side has hung up, or
//! the operation is non-blocking and would have to wait. A failed send
//! hands the undelivered value back to the caller.

use vstd::prelude::*;

verus! {

/// Cause of a [`SendError`] or [`RecvError`].
#[derive(Debug, Clone, Copy, PartialEq, Eq, Structural)]
pub enum ErrorCause {
    /// There are no more senders or receivers, and the operation would
    /// either discard data or block forever.
    HungUp,
    /// The channel is empty or full, and the operation would block.
    WouldBlock,
}

impl ErrorCause {
    /// A human-readable rendering of the cause.
    pub fn message(&self) -> (r: &'static str)
        ensures
            *self is HungUp ==> r@ == "channel hung up"@,
            *self is WouldBlock ==> r@ == "channel would block"@,
    {
        match self {
            ErrorCause::HungUp => "channel hung up",
            ErrorCause::WouldBlock => "channel would block",
        }
    }
}

/// Error returned by a failed send.
///
/// It carries the value that could not be delivered, so that no value is
/// silently lost, together with the cause of the failure.
#[derive(Debug)]
pub struct SendError<T>(
    /// The value that was attempted to be sent.
    pub T,
    /// The cause of the error.
    pub ErrorCause,
);

impl<T> SendError<T> {
    /// Returns the value that was attempted to be sent.
    pub fn into_inner(self) -> (r: T)
        ensures
            r == self.0,
    {
        self.0
    }

    /// A human-readable rendering of the error.
    pub fn message(&self) -> (r: &'static str)
        ensures
            self.1 is HungUp ==> r@ == "SendError: channel hung up"@,
            self.1 is WouldBlock ==> r@ == "SendError: channel would block"@,
    {
        match self.1 {
            ErrorCause::HungUp => "SendError: channel hung up",
            ErrorCause::WouldBlock => "SendError: channel would block",
        }
    }
}

/// Error returned by a failed receive.
///
/// It carries only the cause: a failed receive produces no value.
#[derive(Debug, Clone, Copy, PartialEq, Eq, Structural)]
pub struct RecvError(
    /// The cause of the error.
    pub ErrorCause,
);

impl RecvError {
    /// A human-readable rendering of the error.
    pub fn message(&self) -> (r: &'static str)
        ensures
            self.0 is HungUp ==> r@ == "RecvError: channel hung up"@,
            self.0 is WouldBlock ==> r@ == "RecvError: channel would block"@,
    {
        match self.0 {
            ErrorCause::HungUp => "RecvError: channel hung up",
            ErrorCause::WouldBlock => "RecvError: channel would block",
        }
    }
}

} // verus!
