//! The channel endpoints, and the few calls through which the library
//! reaches them. Nothing in this file is proved: each contract states what
//! the channel's own source shows, and no more.
//!
//! A channel is shared with other threads, which fill and drain it between
//! any two calls made here. So no contract speaks of what a channel holds,
//! and none promises which outcome a call will have.

use crate::adapter::Poll;
use crate::dispatch::SendOutcome;
use async_std::channel::{Receiver, Sender, TrySendError};
use std::pin::Pin;
use std::task::Context;
use vstd::prelude::*;

verus! {

/// The sending half of an `async_std` channel, carried as an opaque value.
#[verifier::external_type_specification]
#[verifier::external_body]
#[verifier::reject_recursive_types(T)]
pub struct ExSender<T>(async_std::channel::Sender<T>);

/// The receiving half of an `async_std` channel, carried as an opaque value.
#[verifier::external_type_specification]
#[verifier::external_body]
#[verifier::reject_recursive_types(T)]
pub struct ExReceiver<T>(async_std::channel::Receiver<T>);

/// The task context that a scheduler hands to a poll, carried as an opaque
/// value.
#[verifier::external_type_specification]
#[verifier::external_body]
pub struct ExContext<'a>(std::task::Context<'a>);

/// The bound that a channel was made with: `None` for an unbounded channel,
/// the number of messages it holds at most for a bounded one. It is fixed
/// when the channel is made and is the same for every handle to it.
pub uninterp spec fn channel_capacity(sender: Sender<i64>) -> Option<nat>;

/// Calls `Sender::capacity`, which reports the bound that the channel was
/// made with.
#[verifier::external_body]
pub(crate) fn sender_capacity(sender: &Sender<i64>) -> (capacity: Option<usize>)
    ensures
        capacity is Some <==> channel_capacity(*sender) is Some,
        capacity matches Some(bound) ==> channel_capacity(*sender) == Some(bound as nat),
{
    sender.capacity()
}

/// Calls `Sender::try_send`, which never blocks. The contract claims two
/// things: that a message which the channel refuses is handed back as it
/// was given, and that only a bounded channel ever reports that it is full.
#[verifier::external_body]
pub(crate) fn try_send(sender: &Sender<i64>, message: i64) -> (outcome: SendOutcome)
    ensures
        outcome matches SendOutcome::Full(returned) ==> returned == message,
        outcome matches SendOutcome::Closed(returned) ==> returned == message,
        outcome is Full ==> channel_capacity(*sender) is Some,
{
    match sender.try_send(message) {
        Ok(()) => SendOutcome::Sent,
        Err(TrySendError::Full(returned)) => SendOutcome::Full(returned),
        Err(TrySendError::Closed(returned)) => SendOutcome::Closed(returned),
    }
}

/// Calls `Stream::poll_next` on the receiver, which never blocks: it takes
/// the oldest message if the channel holds one, reports the end if the
/// channel is closed and empty, and otherwise leaves the context's waker
/// with the channel. The contract claims nothing.
#[verifier::external_body]
pub(crate) fn poll_receiver<T>(receiver: &mut Receiver<T>, cx: &mut Context<'_>) -> (outcome:
    Poll<T>) {
    match futures_core::Stream::poll_next(Pin::new(receiver), cx) {
        std::task::Poll::Pending => Poll::Pending,
        std::task::Poll::Ready(Some(item)) => Poll::Item(item),
        std::task::Poll::Ready(None) => Poll::Done,
    }
}

/// Calls `Receiver::clone`, which hands out one more handle to the same
/// queue. The handle is opaque, so the contract claims nothing.
#[verifier::external_body]
pub(crate) fn share_receiver<T>(receiver: &Receiver<T>) -> (shared: Receiver<T>) {
    receiver.clone()
}

} // verus!
