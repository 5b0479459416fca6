//! The stream adapter: a thin proxy that lets a scheduler poll the receiving
//! end of the response channel, under an identity that stays the same
//! however often the proxy itself is rebuilt.

use crate::channel::{poll_receiver, share_receiver};
use async_std::channel::Receiver;
use std::task::Context;
use vstd::prelude::*;

verus! {

/// What one poll of a receiving endpoint reported.
#[derive(Debug, PartialEq, Eq)]
pub enum Poll<T> {
    /// No item is ready yet: ask again.
    Pending,
    /// The next item.
    Item(T),
    /// The channel is closed and drained: the sequence has ended.
    Done,
}

/// The adapter. It buffers nothing: every item it reports comes straight
/// from the channel. All it keeps of its own is whether it has reported
/// the end of the sequence, which is final.
#[verifier::reject_recursive_types(T)]
pub struct RecvWrapper<T> {
    receiver: Receiver<T>,
    identity: u64,
    finished: bool,
}

impl<T> RecvWrapper<T> {
    /// The key under which the host recognises this subscription.
    pub closed spec fn spec_identity(&self) -> u64 {
        self.identity
    }

    /// Whether this adapter has reported the end of the sequence. Only a
    /// poll sets this, and nothing clears it.
    pub closed spec fn spec_is_finished(&self) -> bool {
        self.finished
    }

    /// Wraps `receiver` under the key `identity`. The adapter has reported
    /// nothing yet.
    pub fn new(receiver: Receiver<T>, identity: u64) -> (adapter: RecvWrapper<T>)
        ensures
            adapter.identity() == identity,
            !adapter.is_finished(),
    {
        RecvWrapper { receiver, identity, finished: false }
    }

    /// The key under which the host recognises this subscription. It is
    /// the same for every copy of the adapter.
    #[verifier::when_used_as_spec(spec_identity)]
    pub fn identity(&self) -> (identity: u64)
        ensures
            identity == self.identity(),
    {
        self.identity
    }

    /// Polls once, without blocking. Until the end of the sequence has been
    /// reported the channel is asked, and it decides the outcome. Once the
    /// end has been reported it is reported on every later poll: the channel
    /// is asked no more, and no item ever follows the end.
    pub fn poll_next(&mut self, cx: &mut Context<'_>) -> (outcome: Poll<T>)
        ensures
            final(self).identity() == old(self).identity(),
            final(self).is_finished() == (outcome is Done),
            old(self).is_finished() ==> outcome is Done && *final(self) == *old(self),
    {
        if self.finished {
            return Poll::Done;
        }
        let outcome = poll_receiver(&mut self.receiver, cx);
        self.finished = outcome.is_done();
        outcome
    }

    /// Tells whether this adapter has reported the end of the sequence.
    #[verifier::when_used_as_spec(spec_is_finished)]
    pub fn is_finished(&self) -> (finished: bool)
        ensures
            finished == self.is_finished(),
    {
        self.finished
    }
}

impl<T> Clone for RecvWrapper<T> {
    /// A second adapter on the same receiving endpoint, under the same key,
    /// which has reported the end if this one has.
    fn clone(&self) -> (copy: RecvWrapper<T>)
        ensures
            copy.identity() == self.identity(),
            copy.is_finished() == self.is_finished(),
    {
        RecvWrapper {
            receiver: share_receiver(&self.receiver),
            identity: self.identity,
            finished: self.finished,
        }
    }
}

impl<T> Poll<T> {
    /// Tells whether this poll reported the end of the sequence.
    pub fn is_done(&self) -> (done: bool)
        ensures
            done == (self is Done),
    {
        match self {
            Poll::Done => true,
            _ => false,
        }
    }
}

} // verus!
