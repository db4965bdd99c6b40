//! What the transmitter reports after one attempt to send a batch.

use vstd::prelude::*;

verus! {

/// The result of handing one batch to the transmitter.
#[derive(Debug)]
pub enum SendOutcome<T> {
    /// The whole batch was delivered.
    Accepted,
    /// Part or all of the batch should be sent again later; the records given
    /// here take the place of the buffer.
    RetryWithItems(Vec<T>),
    /// As `RetryWithItems`, with a hint in nanoseconds of how long the
    /// receiving end would like the sender to wait. The dispatcher accepts the
    /// hint and backs off by its own policy.
    ThrottledWithItems(u128, Vec<T>),
    /// The batch was refused for good and is dropped.
    Rejected,
    /// The batch could not be handed over at all; all of it is kept for a
    /// retry.
    TransportFailure,
}

impl<T> SendOutcome<T> {
    /// Whether the outcome asks for another attempt.
    pub open spec fn retryable(self) -> bool {
        self is RetryWithItems || self is ThrottledWithItems || self is TransportFailure
    }

    /// What the buffer holds once this outcome of sending `sent` is taken in.
    pub open spec fn kept(self, sent: Seq<T>) -> Seq<T> {
        match self {
            SendOutcome::Accepted => Seq::empty(),
            SendOutcome::RetryWithItems(remaining) => remaining@,
            SendOutcome::ThrottledWithItems(_, remaining) => remaining@,
            SendOutcome::Rejected => Seq::empty(),
            SendOutcome::TransportFailure => sent,
        }
    }

    /// Computes [`SendOutcome::retryable`].
    pub fn is_retryable(&self) -> (yes: bool)
        ensures
            yes == self.retryable(),
    {
        match self {
            SendOutcome::Accepted => false,
            SendOutcome::RetryWithItems(_) => true,
            SendOutcome::ThrottledWithItems(_, _) => true,
            SendOutcome::Rejected => false,
            SendOutcome::TransportFailure => true,
        }
    }
}

} // verus!
