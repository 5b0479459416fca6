//! The bridge as a whole, as a model: both channels, the worker and the
//! subscription as one state that moves a step at a time.
//!
//! In the model each channel is what its documentation says it is: a queue
//! that hands out first what came in first, that refuses what it has no
//! room for, and that reports its end once it is empty and its senders are
//! gone. The worker, the dispatcher and the subscription move as the
//! functions of this library decide. The laws at the end of this file are
//! proved of this model, for every order in which the front-end, the worker
//! and the host may take their turns.

use crate::adapter::Poll;
use crate::controller::{lemma_fold_all_shows_newest, WatcherState};
use crate::dispatch::SendOutcome;
use crate::subscription::Phase;
use crate::worker::{answer, answers, worker_action, WorkerAction, WorkerEvent};
use vstd::prelude::*;

verus! {

/// The state of the bridge.
pub struct Bridge {
    /// How many items each channel holds at most; `None` if it is unbounded.
    pub capacity: Option<nat>,
    /// The request channel, oldest item first.
    pub requests: Seq<i64>,
    /// The response channel, oldest item first.
    pub responses: Seq<i64>,
    /// Whether a request-sending handle is still alive.
    pub senders_open: bool,
    /// Whether the worker is still in its loop, holding the response sender.
    pub worker_running: bool,
    /// Where the host's subscription stands.
    pub phase: Phase,
    /// Every request that the request channel has taken, oldest first.
    pub dispatched: Seq<i64>,
    /// Every item that a poll has reported, oldest first.
    pub delivered: Seq<i64>,
}

/// One turn of one party.
pub enum Step {
    /// The front-end tries to send this request.
    Dispatch(i64),
    /// The last request-sending handle is dropped.
    DropSenders,
    /// The worker receives once and acts on what it got.
    Work,
    /// The host is offered an adapter with this identity, built on the
    /// response channel's receiving end.
    Register(u64),
    /// The host lets its subscription go.
    Release,
    /// The host polls its subscription, if it is active.
    Poll,
}

impl Bridge {
    /// The bridge at startup: two empty channels, a running worker, nothing
    /// registered.
    pub open spec fn start(capacity: Option<nat>) -> Bridge {
        Bridge {
            capacity,
            requests: Seq::empty(),
            responses: Seq::empty(),
            senders_open: true,
            worker_running: true,
            phase: Phase::Unregistered,
            dispatched: Seq::empty(),
            delivered: Seq::empty(),
        }
    }

    /// Whether a channel that holds `queue` can take no more.
    pub open spec fn is_full(self, queue: Seq<i64>) -> bool {
        self.capacity matches Some(capacity) && queue.len() >= capacity
    }

    /// What a non-blocking send of `request` reports.
    pub open spec fn send_outcome(self, request: i64) -> SendOutcome {
        if !self.worker_running {
            SendOutcome::Closed(request)
        } else if self.is_full(self.requests) {
            SendOutcome::Full(request)
        } else {
            SendOutcome::Sent
        }
    }

    /// The front-end's turn: the request enters the channel if a sending
    /// handle is left and the channel takes it.
    pub open spec fn dispatch(self, request: i64) -> Bridge {
        if self.senders_open && self.send_outcome(request) is Sent {
            Bridge {
                requests: self.requests.push(request),
                dispatched: self.dispatched.push(request),
                ..self
            }
        } else {
            self
        }
    }

    /// What the worker's receive hands it; `None` while it has to wait.
    pub open spec fn worker_event(self) -> Option<WorkerEvent> {
        if self.requests.len() > 0 {
            Some(WorkerEvent::Request(self.requests.first()))
        } else if !self.senders_open {
            Some(WorkerEvent::Closed)
        } else {
            None
        }
    }

    /// The worker's turn. It waits while there is nothing to receive, and
    /// while the response channel has no room for what it would send.
    pub open spec fn work(self) -> Bridge {
        if !self.worker_running {
            self
        } else {
            match self.worker_event() {
                None => self,
                Some(event) => match worker_action(event) {
                    WorkerAction::Respond(response) => if self.is_full(self.responses) {
                        self
                    } else {
                        Bridge {
                            requests: self.requests.drop_first(),
                            responses: self.responses.push(response),
                            ..self
                        }
                    },
                    WorkerAction::Exit => Bridge { worker_running: false, ..self },
                },
            }
        }
    }

    /// What a poll of the response channel reports.
    pub open spec fn poll_outcome(self) -> Poll<i64> {
        if self.responses.len() > 0 {
            Poll::Item(self.responses.first())
        } else if !self.worker_running {
            Poll::Done
        } else {
            Poll::Pending
        }
    }

    /// The host's turn to poll. Only an active subscription is polled.
    pub open spec fn poll(self) -> Bridge {
        if self.phase is Active {
            match self.poll_outcome() {
                Poll::Item(item) => Bridge {
                    responses: self.responses.drop_first(),
                    delivered: self.delivered.push(item),
                    ..self
                },
                outcome => Bridge { phase: self.phase.polled(outcome), ..self },
            }
        } else {
            self
        }
    }

    /// The state after one step.
    pub open spec fn next(self, step: Step) -> Bridge {
        match step {
            Step::Dispatch(request) => self.dispatch(request),
            Step::DropSenders => Bridge { senders_open: false, ..self },
            Step::Work => self.work(),
            Step::Register(identity) => Bridge {
                phase: self.phase.registered(identity).0,
                ..self
            },
            Step::Release => Bridge { phase: Phase::Unregistered, ..self },
            Step::Poll => self.poll(),
        }
    }

    /// The state after `steps`, taken in order.
    pub open spec fn run(self, steps: Seq<Step>) -> Bridge
        decreases steps.len(),
    {
        if steps.len() == 0 {
            self
        } else {
            self.next(steps.first()).run(steps.drop_first())
        }
    }

    /// The state after `rounds` rounds in each of which the worker takes a
    /// turn and the host then polls.
    pub open spec fn settle(self, rounds: nat) -> Bridge
        decreases rounds,
    {
        if rounds == 0 {
            self
        } else {
            self.work().poll().settle((rounds - 1) as nat)
        }
    }

    /// The steps that `settle` takes.
    pub open spec fn settling(rounds: nat) -> Seq<Step>
        decreases rounds,
    {
        if rounds == 0 {
            Seq::empty()
        } else {
            seq![Step::Work, Step::Poll] + Bridge::settling((rounds - 1) as nat)
        }
    }

    /// How much is on its way: a request has two hops ahead of it, a
    /// response one.
    pub open spec fn backlog(self) -> nat {
        2 * self.requests.len() + self.responses.len()
    }

    /// Whether both channels are empty.
    pub open spec fn is_drained(self) -> bool {
        self.requests.len() == 0 && self.responses.len() == 0
    }

    /// What holds of every state that the bridge can reach.
    pub open spec fn is_consistent(self) -> bool {
        &&& self.delivered + self.responses + answers(self.requests) == answers(self.dispatched)
        &&& self.capacity matches Some(capacity) ==> self.requests.len() <= capacity
            && self.responses.len() <= capacity
        &&& !self.worker_running ==> self.requests.len() == 0 && !self.senders_open
        &&& self.phase is Completed ==> self.responses.len() == 0 && !self.worker_running
    }
}

proof fn lemma_answers_push(requests: Seq<i64>, request: i64)
    ensures
        answers(requests.push(request)) == answers(requests).push(answer(request)),
{
    assert(answers(requests.push(request)) =~= answers(requests).push(answer(request)));
}

proof fn lemma_answers_first(requests: Seq<i64>)
    requires
        requests.len() > 0,
    ensures
        answers(requests) == seq![answer(requests.first())] + answers(requests.drop_first()),
{
    let rest = answers(requests.drop_first());
    assert(answers(requests) =~= seq![answer(requests.first())] + rest);
}

/// No step breaks consistency.
pub proof fn lemma_step_keeps_consistent(bridge: Bridge, step: Step)
    requires
        bridge.is_consistent(),
    ensures
        bridge.next(step).is_consistent(),
{
    let after = bridge.next(step);
    match step {
        Step::Dispatch(request) => {
            if bridge.senders_open && bridge.send_outcome(request) is Sent {
                lemma_answers_push(bridge.requests, request);
                lemma_answers_push(bridge.dispatched, request);
                let before = bridge.delivered + bridge.responses + answers(bridge.requests);
                assert(after.delivered + after.responses + answers(after.requests)
                    =~= before.push(answer(request)));
            }
        },
        Step::Work => {
            let has_room = !bridge.is_full(bridge.responses);
            if bridge.worker_running && bridge.requests.len() > 0 && has_room {
                lemma_answers_first(bridge.requests);
                assert(after.delivered + after.responses + answers(after.requests)
                    =~= bridge.delivered + bridge.responses + answers(bridge.requests));
            }
        },
        Step::Poll => {
            if bridge.phase is Active && bridge.responses.len() > 0 {
                assert(after.delivered + after.responses + answers(after.requests)
                    =~= bridge.delivered + bridge.responses + answers(bridge.requests));
            }
        },
        _ => {},
    }
}

/// No run breaks consistency.
pub proof fn lemma_run_keeps_consistent(bridge: Bridge, steps: Seq<Step>)
    requires
        bridge.is_consistent(),
    ensures
        bridge.run(steps).is_consistent(),
    decreases steps.len(),
{
    if steps.len() > 0 {
        lemma_step_keeps_consistent(bridge, steps.first());
        lemma_run_keeps_consistent(bridge.next(steps.first()), steps.drop_first());
    }
}

/// Every state that the bridge reaches from its start is consistent. So a
/// bounded channel never holds more than it was made for; the worker stays
/// in its loop until the request-sending handles are gone and the requests
/// are used up, whatever becomes of the subscription; and a subscription
/// completes only when nothing is left to deliver.
pub proof fn lemma_reachable_is_consistent(capacity: Option<nat>, steps: Seq<Step>)
    ensures
        Bridge::start(capacity).run(steps).is_consistent(),
        Bridge::start(capacity).run(steps).capacity == capacity,
{
    let begun = Bridge::start(capacity);
    assert(begun.delivered + begun.responses + answers(begun.requests) =~= answers(
        begun.dispatched,
    ));
    lemma_run_keeps_consistent(begun, steps);
    lemma_capacity_is_fixed(begun, steps);
}

/// Order is preserved. However the parties take their turns, what the
/// polls have reported so far is the responses to the requests that were
/// dispatched, in the order of dispatch, from the first on and without a
/// gap or a repeat; the rest is still on its way, in that same order.
pub proof fn lemma_order_preserved(capacity: Option<nat>, steps: Seq<Step>)
    ensures
        ({
            let bridge = Bridge::start(capacity).run(steps);
            &&& bridge.delivered + bridge.responses + answers(bridge.requests) == answers(
                bridge.dispatched,
            )
            &&& bridge.delivered.len() <= bridge.dispatched.len()
            &&& forall|i: int|
                0 <= i < bridge.delivered.len() ==> #[trigger] bridge.delivered[i] == answer(
                    bridge.dispatched[i],
                )
        }),
{
    lemma_reachable_is_consistent(capacity, steps);
    lemma_delivered_is_prefix(Bridge::start(capacity).run(steps));
}

/// In a consistent state the items delivered are the responses to the
/// first requests dispatched, one for one.
pub proof fn lemma_delivered_is_prefix(bridge: Bridge)
    requires
        bridge.is_consistent(),
    ensures
        bridge.delivered.len() <= bridge.dispatched.len(),
        forall|i: int|
            0 <= i < bridge.delivered.len() ==> #[trigger] bridge.delivered[i] == answer(
                bridge.dispatched[i],
            ),
        bridge.is_drained() ==> bridge.delivered == answers(bridge.dispatched),
{
    let whole = bridge.delivered + bridge.responses + answers(bridge.requests);
    assert(whole.len() == bridge.delivered.len() + bridge.responses.len()
        + bridge.requests.len());
    assert(answers(bridge.dispatched).len() == bridge.dispatched.len());
    assert forall|i: int| 0 <= i < bridge.delivered.len() implies #[trigger] bridge.delivered[i]
        == answer(bridge.dispatched[i]) by {
        assert(whole[i] == bridge.delivered[i]);
        assert(answers(bridge.dispatched)[i] == answer(bridge.dispatched[i]));
    }
    if bridge.is_drained() {
        assert(whole =~= bridge.delivered);
    }
}

/// What the front-end shows. A controller that folds in every item as it
/// is delivered shows the response to the newest request that has been
/// answered so far, and 0 while none has.
pub proof fn lemma_front_end_shows_newest(capacity: Option<nat>, steps: Seq<Step>)
    ensures
        ({
            let bridge = Bridge::start(capacity).run(steps);
            let shown = WatcherState::initial().fold_all(bridge.delivered);
            shown.last_recv == if bridge.delivered.len() == 0 {
                0
            } else {
                answer(bridge.dispatched[bridge.delivered.len() - 1]) as int
            }
        }),
{
    let bridge = Bridge::start(capacity).run(steps);
    lemma_order_preserved(capacity, steps);
    lemma_fold_all_shows_newest(WatcherState::initial(), bridge.delivered);
}

/// Registering and releasing touch neither channel: what was sent stays
/// where it is, and what was delivered stays delivered.
pub proof fn lemma_registration_leaves_channels(bridge: Bridge, identity: u64)
    ensures
        bridge.next(Step::Register(identity)) == (Bridge {
            phase: bridge.phase.registered(identity).0,
            ..bridge
        }),
        bridge.next(Step::Release) == (Bridge { phase: Phase::Unregistered, ..bridge }),
        bridge.next(Step::Release).next(Step::Register(identity)).phase == Phase::Active(
            identity,
        ),
        !(bridge.next(Step::Register(identity)).phase is Unregistered),
{
}

proof fn lemma_round(bridge: Bridge)
    requires
        bridge.is_consistent(),
        bridge.capacity != Some(0nat),
        !(bridge.phase is Unregistered),
    ensures
        ({
            let after = bridge.work().poll();
            &&& after.is_consistent()
            &&& after.capacity == bridge.capacity
            &&& after.dispatched == bridge.dispatched
            &&& after.senders_open == bridge.senders_open
            &&& !(after.phase is Unregistered)
            &&& bridge.backlog() > 0 ==> after.backlog() < bridge.backlog()
            &&& bridge.backlog() == 0 ==> after.backlog() == 0
            &&& bridge.backlog() == 0 && !bridge.senders_open ==> after.phase is Completed
        }),
{
    lemma_step_keeps_consistent(bridge, Step::Work);
    lemma_step_keeps_consistent(bridge.work(), Step::Poll);
    assert(bridge.next(Step::Work) == bridge.work());
    assert(bridge.work().next(Step::Poll) == bridge.work().poll());
}

/// If the subscription is registered and no channel has capacity zero,
/// rounds of one worker turn and one poll deliver all that is on its way:
/// after as many rounds as the backlog counts, both channels are empty and
/// every request that was dispatched has had its response delivered, once
/// and in order. If the sending handles are gone as well, one round more
/// completes the subscription.
pub proof fn lemma_settles(bridge: Bridge, rounds: nat)
    requires
        bridge.is_consistent(),
        bridge.capacity != Some(0nat),
        !(bridge.phase is Unregistered),
        rounds >= bridge.backlog(),
    ensures
        bridge.settle(rounds).is_consistent(),
        bridge.settle(rounds).is_drained(),
        bridge.settle(rounds).dispatched == bridge.dispatched,
        bridge.settle(rounds).delivered == answers(bridge.dispatched),
        !bridge.senders_open && rounds > bridge.backlog() ==> bridge.settle(rounds).phase
            is Completed,
    decreases rounds,
{
    if rounds == 0 {
        lemma_delivered_is_prefix(bridge);
    } else {
        lemma_round(bridge);
        lemma_settles(bridge.work().poll(), (rounds - 1) as nat);
    }
}

/// Settling is a run like any other: the worker and the host take turns.
pub proof fn lemma_settle_is_a_run(bridge: Bridge, rounds: nat)
    ensures
        bridge.settle(rounds) == bridge.run(Bridge::settling(rounds)),
    decreases rounds,
{
    if rounds > 0 {
        let rest = Bridge::settling((rounds - 1) as nat);
        let steps = Bridge::settling(rounds);
        assert(steps.first() == Step::Work);
        assert(steps.drop_first() =~= seq![Step::Poll] + rest);
        assert(steps.drop_first().first() == Step::Poll);
        assert(steps.drop_first().drop_first() =~= rest);
        assert(bridge.run(steps) == bridge.next(Step::Work).run(steps.drop_first()));
        assert(bridge.next(Step::Work).run(steps.drop_first()) == bridge.next(Step::Work).next(
            Step::Poll,
        ).run(rest));
        lemma_settle_is_a_run(bridge.work().poll(), (rounds - 1) as nat);
    }
}

/// Nothing is lost across re-registration. Let the parties take any turns;
/// then let the host drop its adapter and register a new one on the same
/// receiving end; then let them take any turns again. Once the worker and
/// a registered subscription have had their rounds, every request that was
/// dispatched, before the swap or after it, has had its response delivered
/// exactly once, in the order of dispatch.
pub proof fn lemma_nothing_lost_across_registration(
    capacity: Option<nat>,
    before: Seq<Step>,
    swapped_in: u64,
    after: Seq<Step>,
    resumed_as: u64,
)
    requires
        capacity != Some(0nat),
    ensures
        ({
            let at_swap = Bridge::start(capacity).run(before);
            let swapped = at_swap.next(Step::Release).next(Step::Register(swapped_in));
            let later = swapped.run(after).next(Step::Register(resumed_as));
            let settled = later.run(Bridge::settling(later.backlog()));
            &&& swapped == (Bridge { phase: Phase::Active(swapped_in), ..at_swap })
            &&& settled.is_drained()
            &&& settled.dispatched == later.dispatched
            &&& settled.delivered == answers(later.dispatched)
        }),
{
    lemma_reachable_is_consistent(capacity, before);
    let at_swap = Bridge::start(capacity).run(before);
    lemma_step_keeps_consistent(at_swap, Step::Release);
    lemma_step_keeps_consistent(at_swap.next(Step::Release), Step::Register(swapped_in));
    let swapped = at_swap.next(Step::Release).next(Step::Register(swapped_in));
    lemma_run_keeps_consistent(swapped, after);
    lemma_capacity_is_fixed(swapped, after);
    lemma_step_keeps_consistent(swapped.run(after), Step::Register(resumed_as));
    let later = swapped.run(after).next(Step::Register(resumed_as));
    lemma_settles(later, later.backlog());
    lemma_settle_is_a_run(later, later.backlog());
}

/// No run changes the capacity that the channels were made with.
pub proof fn lemma_capacity_is_fixed(bridge: Bridge, steps: Seq<Step>)
    ensures
        bridge.run(steps).capacity == bridge.capacity,
    decreases steps.len(),
{
    if steps.len() > 0 {
        lemma_capacity_is_fixed(bridge.next(steps.first()), steps.drop_first());
    }
}

/// Completion is final. Once a poll can report the end of the sequence,
/// every later poll reports it too, whatever the parties do in between: no
/// item is ever delivered again.
pub proof fn lemma_completion_is_final(bridge: Bridge, steps: Seq<Step>)
    requires
        bridge.is_consistent(),
        bridge.poll_outcome() is Done,
    ensures
        bridge.run(steps).is_consistent(),
        bridge.run(steps).poll_outcome() is Done,
        bridge.run(steps).delivered == bridge.delivered,
    decreases steps.len(),
{
    if steps.len() > 0 {
        lemma_step_keeps_consistent(bridge, steps.first());
        lemma_completion_is_final(bridge.next(steps.first()), steps.drop_first());
    }
}

/// Termination. Once the request-sending handles are gone, rounds of one
/// worker turn and one poll of an active subscription end with a poll that
/// reports the end of the sequence, which completes the subscription: one
/// round after the backlog is delivered, at the latest. From then on no
/// poll reports an item again, whatever the parties do.
pub proof fn lemma_polling_completes(bridge: Bridge, later: Seq<Step>)
    requires
        bridge.is_consistent(),
        bridge.capacity != Some(0nat),
        bridge.phase is Active,
        !bridge.senders_open,
    ensures
        ({
            let ended = bridge.run(Bridge::settling(bridge.backlog() + 1));
            &&& ended.phase is Completed
            &&& ended.poll_outcome() is Done
            &&& ended.delivered == answers(bridge.dispatched)
            &&& ended.run(later).poll_outcome() is Done
            &&& ended.run(later).delivered == ended.delivered
        }),
{
    lemma_settles(bridge, bridge.backlog() + 1);
    lemma_settle_is_a_run(bridge, bridge.backlog() + 1);
    lemma_completion_is_final(bridge.settle(bridge.backlog() + 1), later);
}

/// Backpressure loses nothing. A send that the request channel refuses
/// reports the very request it was given and leaves the bridge as it was; a
/// send that it takes puts the request behind all that wait there. A
/// bounded channel is refused only when it holds as much as it can.
pub proof fn lemma_refused_request_is_returned(bridge: Bridge, request: i64)
    requires
        bridge.is_consistent(),
        bridge.senders_open,
    ensures
        match bridge.send_outcome(request) {
            SendOutcome::Sent => bridge.dispatch(request).requests == bridge.requests.push(
                request,
            ) && bridge.dispatch(request).dispatched == bridge.dispatched.push(request),
            SendOutcome::Full(returned) => returned == request && bridge.dispatch(request)
                == bridge && bridge.capacity == Some(bridge.requests.len()),
            SendOutcome::Closed(returned) => returned == request && bridge.dispatch(request)
                == bridge,
        },
{
}

} // verus!
