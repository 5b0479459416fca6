//! The worker: it answers each request with its square, in arrival order,
//! and exits once the request channel is closed and drained.

use vstd::prelude::*;

verus! {

/// The response that the worker computes for `request`.
pub open spec fn response_of(request: int) -> int {
    request * request
}

/// A request is valid when its response fits the channel's item type.
pub open spec fn is_valid_request(request: i64) -> bool {
    response_of(request as int) <= i64::MAX
}

/// The response as the channel carries it.
pub open spec fn answer(request: i64) -> i64 {
    response_of(request as int) as i64
}

/// The responses to `requests`, one for each and in the same order.
pub open spec fn answers(requests: Seq<i64>) -> Seq<i64> {
    requests.map_values(|request: i64| answer(request))
}

/// What a receive on the request channel handed to the worker.
#[derive(Clone, Copy, Debug, PartialEq, Eq, Structural)]
pub enum WorkerEvent {
    /// A request arrived.
    Request(i64),
    /// The channel is closed and holds no more requests.
    Closed,
}

/// What the worker does next.
#[derive(Clone, Copy, Debug, PartialEq, Eq, Structural)]
pub enum WorkerAction {
    /// Send this response, then receive again.
    Respond(i64),
    /// Leave the loop and drop the response sender.
    Exit,
}

/// The worker's decision for each event.
pub open spec fn worker_action(event: WorkerEvent) -> WorkerAction {
    match event {
        WorkerEvent::Request(request) => WorkerAction::Respond(answer(request)),
        WorkerEvent::Closed => WorkerAction::Exit,
    }
}

/// The largest magnitude whose square fits in an `i64`.
pub const MAX_REQUEST: i64 = 3_037_000_499;

/// A request is valid exactly when its magnitude is at most `MAX_REQUEST`.
pub proof fn lemma_valid_request_bounds(request: i64)
    ensures
        is_valid_request(request) <==> -MAX_REQUEST <= request <= MAX_REQUEST,
{
    let r: int = request as int;
    let m: int = MAX_REQUEST as int;
    if -m <= r <= m {
        assert(r * r <= m * m) by (nonlinear_arith)
            requires
                -m <= r <= m,
        ;
    } else if r > m {
        assert(r * r >= (m + 1) * (m + 1)) by (nonlinear_arith)
            requires
                r >= m + 1,
                m >= 0,
        ;
    } else {
        assert(r * r >= (m + 1) * (m + 1)) by (nonlinear_arith)
            requires
                -r >= m + 1,
                m >= 0,
        ;
    }
}

/// Tells whether `request` is valid.
pub fn can_respond(request: i64) -> (ok: bool)
    ensures
        ok == is_valid_request(request),
{
    proof {
        lemma_valid_request_bounds(request);
    }
    -MAX_REQUEST <= request && request <= MAX_REQUEST
}

/// Computes the response to a valid request.
pub fn respond(request: i64) -> (response: i64)
    requires
        is_valid_request(request),
    ensures
        response == response_of(request as int),
{
    proof {
        lemma_valid_request_bounds(request);
        let r: int = request as int;
        assert(r * r >= 0) by (nonlinear_arith);
    }
    request * request
}

/// Decides what the worker does with what its receive handed it.
pub fn worker_step(event: WorkerEvent) -> (action: WorkerAction)
    requires
        event matches WorkerEvent::Request(request) ==> is_valid_request(request),
    ensures
        action == worker_action(event),
{
    match event {
        WorkerEvent::Request(request) => WorkerAction::Respond(respond(request)),
        WorkerEvent::Closed => WorkerAction::Exit,
    }
}

/// Runs the worker over the requests that arrive before the channel is
/// closed: it takes them one at a time, oldest first, and returns what it
/// sent back, in the order in which it sent it.
pub fn worker_thread(requests: &Vec<i64>) -> (responses: Vec<i64>)
    requires
        forall|i: int| 0 <= i < requests@.len() ==> is_valid_request(#[trigger] requests@[i]),
    ensures
        responses@ == answers(requests@),
        responses@.len() == requests@.len(),
        forall|i: int|
            0 <= i < requests@.len() ==> #[trigger] responses@[i] == response_of(
                requests@[i] as int,
            ),
{
    let mut responses: Vec<i64> = Vec::new();
    let mut taken: usize = 0;
    loop
        invariant
            forall|i: int| 0 <= i < requests@.len() ==> is_valid_request(#[trigger] requests@[i]),
            taken <= requests@.len(),
            responses@ == answers(requests@.take(taken as int)),
        ensures
            taken == requests@.len(),
        decreases requests@.len() - taken,
    {
        let event = if taken < requests.len() {
            WorkerEvent::Request(requests[taken])
        } else {
            WorkerEvent::Closed
        };
        match worker_step(event) {
            WorkerAction::Respond(response) => {
                proof {
                    let before = requests@.take(taken as int);
                    let after = requests@.take(taken + 1);
                    assert(after == before.push(requests@[taken as int]));
                    assert(answers(after) == answers(before).push(answer(requests@[taken as int])));
                }
                responses.push(response);
                taken = taken + 1;
            },
            WorkerAction::Exit => {
                break ;
            },
        }
    }
    proof {
        assert(requests@.take(requests@.len() as int) == requests@);
        assert forall|i: int| 0 <= i < requests@.len() implies #[trigger] responses@[i]
            == response_of(requests@[i] as int) by {
            lemma_valid_request_bounds(requests@[i]);
            let r: int = requests@[i] as int;
            assert(r * r >= 0) by (nonlinear_arith);
        }
    }
    responses
}

} // verus!
