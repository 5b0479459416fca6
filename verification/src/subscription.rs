//! Subscription registration: the slot in which the host keeps the one
//! adapter it polls. Registering the same identity again changes nothing;
//! another identity replaces what is there; the end of the sequence
//! completes the subscription, after which it is polled no more.

use crate::adapter::{Poll, RecvWrapper};
use std::task::Context;
use vstd::prelude::*;

verus! {

/// Where a subscription stands.
#[derive(Debug, Clone, Copy, PartialEq, Eq, Structural)]
pub enum Phase {
    /// Nothing is registered.
    Unregistered,
    /// The adapter with this identity is being polled.
    Active(u64),
    /// The adapter with this identity has reported the end of its sequence.
    Completed(u64),
}

/// What a registration did to the slot.
#[derive(Debug, Clone, Copy, PartialEq, Eq, Structural)]
pub enum Registration {
    /// The slot was empty: the offered adapter is now polled.
    Started,
    /// The slot already held this identity: it goes on as before and the
    /// offered adapter is dropped.
    Kept,
    /// The slot held another identity: that subscription is cancelled and
    /// the offered adapter is now polled.
    Replaced,
}

impl Phase {
    /// The identity registered in the slot, if any.
    pub open spec fn identity(self) -> Option<u64> {
        match self {
            Phase::Unregistered => None,
            Phase::Active(identity) => Some(identity),
            Phase::Completed(identity) => Some(identity),
        }
    }

    /// The slot after an adapter with `identity` was offered, and what the
    /// registration did.
    pub open spec fn registered(self, identity: u64) -> (Phase, Registration) {
        if self is Unregistered {
            (Phase::Active(identity), Registration::Started)
        } else if self.identity() == Some(identity) {
            (self, Registration::Kept)
        } else {
            (Phase::Active(identity), Registration::Replaced)
        }
    }

    /// The slot after a poll of its adapter reported `outcome`.
    pub open spec fn polled<T>(self, outcome: Poll<T>) -> Phase {
        match self {
            Phase::Active(identity) if outcome is Done => Phase::Completed(identity),
            _ => self,
        }
    }
}

#[verifier::reject_recursive_types(T)]
enum Slot<T> {
    Empty,
    Polling(RecvWrapper<T>),
    Finished(u64),
}

/// One subscription slot of the host.
#[verifier::reject_recursive_types(T)]
pub struct Subscription<T> {
    slot: Slot<T>,
}

impl<T> Subscription<T> {
    /// Where the subscription stands.
    pub closed spec fn spec_phase(&self) -> Phase {
        match self.slot {
            Slot::Empty => Phase::Unregistered,
            Slot::Polling(adapter) => Phase::Active(adapter.identity()),
            Slot::Finished(identity) => Phase::Completed(identity),
        }
    }

    /// The adapter that the slot polls while it is active.
    pub closed spec fn adapter(&self) -> Option<RecvWrapper<T>> {
        match self.slot {
            Slot::Polling(adapter) => Some(adapter),
            _ => None,
        }
    }

    /// An empty slot.
    pub fn new() -> (subscription: Subscription<T>)
        ensures
            subscription.phase() == Phase::Unregistered,
            subscription.adapter() is None,
    {
        Subscription { slot: Slot::Empty }
    }

    /// Where the subscription stands.
    #[verifier::when_used_as_spec(spec_phase)]
    pub fn phase(&self) -> (phase: Phase)
        ensures
            phase == self.phase(),
            phase is Active <==> self.adapter() is Some,
            phase matches Phase::Active(identity) ==> self.adapter().unwrap().identity()
                == identity,
    {
        match &self.slot {
            Slot::Empty => Phase::Unregistered,
            Slot::Polling(adapter) => Phase::Active(adapter.identity()),
            Slot::Finished(identity) => Phase::Completed(*identity),
        }
    }

    /// Tells whether the slot holds an adapter that may be polled.
    pub fn is_active(&self) -> (active: bool)
        ensures
            active == (self.phase() is Active),
    {
        match &self.slot {
            Slot::Polling(_) => true,
            _ => false,
        }
    }

    /// Offers `adapter` to the slot. An adapter whose identity the slot
    /// already holds is dropped unused, whether that subscription is still
    /// active or has completed, and the slot stays exactly as it was; any
    /// other adapter takes the slot over.
    pub fn register(&mut self, adapter: RecvWrapper<T>) -> (registration: Registration)
        ensures
            (final(self).phase(), registration) == old(self).phase().registered(
                adapter.identity(),
            ),
            registration is Kept ==> *final(self) == *old(self),
            !(registration is Kept) ==> final(self).adapter() == Some(adapter),
    {
        let offered: u64 = adapter.identity();
        match self.phase() {
            Phase::Unregistered => {
                self.slot = Slot::Polling(adapter);
                Registration::Started
            },
            Phase::Active(held) | Phase::Completed(held) => {
                if held == offered {
                    Registration::Kept
                } else {
                    self.slot = Slot::Polling(adapter);
                    Registration::Replaced
                }
            },
        }
    }

    /// Records what a poll of the slot's adapter reported: the end of the
    /// sequence completes an active subscription, and nothing else changes
    /// anything.
    pub fn observe(&mut self, outcome: &Poll<T>)
        ensures
            final(self).phase() == old(self).phase().polled(*outcome),
            final(self).phase() == old(self).phase() ==> *final(self) == *old(self),
    {
        if outcome.is_done() {
            match self.phase() {
                Phase::Active(identity) => {
                    self.slot = Slot::Finished(identity);
                },
                _ => {},
            }
        }
    }

    /// Polls the active adapter once, without blocking, and records the
    /// outcome. The slot completes exactly when that is the end of the
    /// sequence; until then it keeps its adapter, which has yet to end.
    pub fn poll_next(&mut self, cx: &mut Context<'_>) -> (outcome: Poll<T>)
        requires
            old(self).phase() is Active,
        ensures
            final(self).phase() == old(self).phase().polled(outcome),
            old(self).adapter() matches Some(polled) && polled.is_finished() ==> outcome is Done,
            !(outcome is Done) ==> (final(self).adapter() matches Some(kept)
                && !kept.is_finished()),
            outcome is Done ==> final(self).adapter() is None,
    {
        let outcome = match &mut self.slot {
            Slot::Polling(adapter) => adapter.poll_next(cx),
            _ => Poll::Pending,
        };
        self.observe(&outcome);
        outcome
    }

    /// Empties the slot: an active subscription is cancelled, a completed
    /// one is let go. The channel is not touched.
    pub fn release(&mut self)
        ensures
            final(self).phase() == Phase::Unregistered,
            final(self).adapter() is None,
    {
        self.slot = Slot::Empty;
    }
}

/// Registering an identity twice is registering it once: the second offer
/// finds the identity in the slot and is dropped.
pub proof fn lemma_registration_is_idempotent(phase: Phase, identity: u64)
    ensures
        phase.registered(identity).0.identity() == Some(identity),
        phase.registered(identity).0.registered(identity) == (
            phase.registered(identity).0,
            Registration::Kept,
        ),
{
}

/// A completed subscription is polled no more and is not started again
/// under its own identity: neither a poll's outcome nor an offer of the
/// same identity moves it. Only another identity or a release does.
pub proof fn lemma_completed_stays_completed<T>(identity: u64, outcome: Poll<T>, other: u64)
    ensures
        Phase::Completed(identity).polled(outcome) == Phase::Completed(identity),
        Phase::Completed(identity).registered(identity) == (
            Phase::Completed(identity),
            Registration::Kept,
        ),
        other != identity ==> Phase::Completed(identity).registered(other) == (
            Phase::Active(other),
            Registration::Replaced,
        ),
{
}

/// An active subscription completes exactly when a poll reports the end of
/// the sequence; until then it stays as it is.
pub proof fn lemma_active_completes_on_done<T>(identity: u64, outcome: Poll<T>)
    ensures
        Phase::Active(identity).polled(outcome) == if outcome is Done {
            Phase::Completed(identity)
        } else {
            Phase::Active(identity)
        },
{
}

} // verus!
