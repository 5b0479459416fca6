//! Fail-fast dispatch: a request is handed to the worker's channel without
//! ever blocking, and a channel that cannot take it gives it back inside an
//! explicit error.

use crate::channel::{channel_capacity, sender_capacity, try_send};
use async_std::channel::Sender;
use vstd::prelude::*;

verus! {

/// What a non-blocking send did with the message.
#[derive(Debug, Clone, Copy, PartialEq, Eq, Structural)]
pub enum SendOutcome {
    /// The channel took the message.
    Sent,
    /// The channel is full and open; the message comes back.
    Full(i64),
    /// The channel is closed; the message comes back.
    Closed(i64),
}

/// Why a dispatch did not reach the worker. Either way the request is
/// handed back, so that the caller can try again or report it.
#[derive(Debug, Clone, Copy, PartialEq, Eq, Structural)]
pub enum DispatchError {
    /// Backpressure: the channel is bounded and holds as much as it can.
    ChannelFull(i64),
    /// The receiving side is gone.
    ChannelClosed(i64),
}

impl DispatchError {
    /// The request that was not sent.
    pub open spec fn request(self) -> i64 {
        match self {
            DispatchError::ChannelFull(request) => request,
            DispatchError::ChannelClosed(request) => request,
        }
    }

    /// Hands back the request that was not sent.
    pub fn into_request(self) -> (request: i64)
        ensures
            request == self.request(),
    {
        match self {
            DispatchError::ChannelFull(request) => request,
            DispatchError::ChannelClosed(request) => request,
        }
    }
}

/// How the dispatcher reports each outcome of a send.
pub open spec fn report_of(outcome: SendOutcome) -> Result<(), DispatchError> {
    match outcome {
        SendOutcome::Sent => Ok(()),
        SendOutcome::Full(request) => Err(DispatchError::ChannelFull(request)),
        SendOutcome::Closed(request) => Err(DispatchError::ChannelClosed(request)),
    }
}

/// Turns the outcome of a send into the dispatcher's result.
pub fn report(outcome: SendOutcome) -> (result: Result<(), DispatchError>)
    ensures
        result == report_of(outcome),
{
    match outcome {
        SendOutcome::Sent => Ok(()),
        SendOutcome::Full(request) => Err(DispatchError::ChannelFull(request)),
        SendOutcome::Closed(request) => Err(DispatchError::ChannelClosed(request)),
    }
}

/// Tells whether the channel behind `to_worker` is bounded, that is,
/// whether a dispatch through it can meet backpressure.
pub fn is_bounded(to_worker: &Sender<i64>) -> (bounded: bool)
    ensures
        bounded == channel_capacity(*to_worker) is Some,
{
    sender_capacity(to_worker).is_some()
}

/// Tries once to hand `request` to the worker, without blocking. Which of
/// the results comes back is the channel's to decide, within these limits:
/// a request that was not sent is never lost, for the error holds it; and
/// an unbounded channel never reports backpressure.
pub fn dispatch(to_worker: &Sender<i64>, request: i64) -> (result: Result<(), DispatchError>)
    ensures
        result matches Err(error) ==> error.request() == request,
        result matches Err(DispatchError::ChannelFull(_)) ==> channel_capacity(*to_worker)
            is Some,
{
    report(try_send(to_worker, request))
}

} // verus!
