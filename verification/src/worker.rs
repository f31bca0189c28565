//! The compute worker as a state machine.
//!
//! The worker owns the backend and is the only party that touches it. What
//! the backend does happens elsewhere; this module decides, from the
//! worker's state and from what just happened, where the worker goes next
//! and what it has to do.

use vstd::prelude::*;
use crate::broker::SendOutcome;
use crate::error::ProtocolError;
use crate::payload::{FixedInput, FixedOutput, Response};

verus! {

/// Where a worker stands in its life.
#[derive(Clone, Copy, Debug, PartialEq, Eq, Structural)]
pub enum WorkerState {
    /// Created; the backend has not been touched.
    Uninitialized,
    /// Backend initialisation is under way.
    Initializing,
    /// The backend is up and no request is being served.
    Ready,
    /// One request is with the backend.
    Busy,
    /// The worker serves nothing any more.
    Terminated,
}

/// What can happen to a worker.
#[derive(Clone, Copy, Debug, PartialEq, Eq, Structural)]
pub enum WorkerEvent {
    /// The worker's execution context started.
    Started,
    /// Backend initialisation completed.
    InitSucceeded,
    /// Backend initialisation failed.
    InitFailed,
    /// The request channel yielded a request.
    RequestReceived(FixedInput),
    /// The backend completed the request in hand.
    ExecSucceeded(FixedOutput),
    /// The backend failed on the request in hand.
    ExecFailed,
    /// The worker's execution context is ending.
    HostEnded,
}

/// What the worker has to do after an event.
#[derive(Clone, Copy, Debug, PartialEq, Eq, Structural)]
pub enum WorkerAction {
    /// Start initialising the backend.
    Initialize,
    /// Raise the readiness gate.
    RaiseGate,
    /// Hand the request to the backend and wait for it to complete.
    Execute(FixedInput),
    /// Put the response on the response channel.
    Respond(Response),
    /// Give the session up: the backend never came up.
    Abandon,
    /// Leave the serving loop.
    Stop,
    /// Nothing: the state has no transition for the event.
    Ignore,
}

/// The state a worker in `state` is in after `event`. A state without a
/// transition for the event is kept.
pub open spec fn next_state(state: WorkerState, event: WorkerEvent) -> WorkerState {
    match (state, event) {
        (WorkerState::Terminated, _) => WorkerState::Terminated,
        (_, WorkerEvent::HostEnded) => WorkerState::Terminated,
        (WorkerState::Uninitialized, WorkerEvent::Started) => WorkerState::Initializing,
        (WorkerState::Initializing, WorkerEvent::InitSucceeded) => WorkerState::Ready,
        (WorkerState::Initializing, WorkerEvent::InitFailed) => WorkerState::Terminated,
        (WorkerState::Ready, WorkerEvent::RequestReceived(_)) => WorkerState::Busy,
        (WorkerState::Busy, WorkerEvent::ExecSucceeded(_)) => WorkerState::Ready,
        (WorkerState::Busy, WorkerEvent::ExecFailed) => WorkerState::Ready,
        _ => state,
    }
}

/// What a worker in `state` has to do after `event`.
pub open spec fn action_for(state: WorkerState, event: WorkerEvent) -> WorkerAction {
    match (state, event) {
        (WorkerState::Terminated, _) => WorkerAction::Ignore,
        (_, WorkerEvent::HostEnded) => WorkerAction::Stop,
        (WorkerState::Uninitialized, WorkerEvent::Started) => WorkerAction::Initialize,
        (WorkerState::Initializing, WorkerEvent::InitSucceeded) => WorkerAction::RaiseGate,
        (WorkerState::Initializing, WorkerEvent::InitFailed) => WorkerAction::Abandon,
        (WorkerState::Ready, WorkerEvent::RequestReceived(input)) => WorkerAction::Execute(input),
        (WorkerState::Busy, WorkerEvent::ExecSucceeded(output)) => WorkerAction::Respond(
            Response::Completed(output),
        ),
        (WorkerState::Busy, WorkerEvent::ExecFailed) => WorkerAction::Respond(Response::Failed),
        _ => WorkerAction::Ignore,
    }
}

/// One step of the worker: the next state and the action to take.
pub fn step(state: WorkerState, event: WorkerEvent) -> (moved: (WorkerState, WorkerAction))
    ensures
        moved.0 == next_state(state, event),
        moved.1 == action_for(state, event),
    no_unwind
{
    match state {
        WorkerState::Terminated => (WorkerState::Terminated, WorkerAction::Ignore),
        WorkerState::Uninitialized => match event {
            WorkerEvent::HostEnded => (WorkerState::Terminated, WorkerAction::Stop),
            WorkerEvent::Started => (WorkerState::Initializing, WorkerAction::Initialize),
            _ => (state, WorkerAction::Ignore),
        },
        WorkerState::Initializing => match event {
            WorkerEvent::HostEnded => (WorkerState::Terminated, WorkerAction::Stop),
            WorkerEvent::InitSucceeded => (WorkerState::Ready, WorkerAction::RaiseGate),
            WorkerEvent::InitFailed => (WorkerState::Terminated, WorkerAction::Abandon),
            _ => (state, WorkerAction::Ignore),
        },
        WorkerState::Ready => match event {
            WorkerEvent::HostEnded => (WorkerState::Terminated, WorkerAction::Stop),
            WorkerEvent::RequestReceived(input) => (
                WorkerState::Busy,
                WorkerAction::Execute(input),
            ),
            _ => (state, WorkerAction::Ignore),
        },
        WorkerState::Busy => match event {
            WorkerEvent::HostEnded => (WorkerState::Terminated, WorkerAction::Stop),
            WorkerEvent::ExecSucceeded(output) => (
                WorkerState::Ready,
                WorkerAction::Respond(Response::Completed(output)),
            ),
            WorkerEvent::ExecFailed => (WorkerState::Ready, WorkerAction::Respond(Response::Failed)),
            _ => (state, WorkerAction::Ignore),
        },
    }
}

/// The event that reports how the backend answered the request in hand.
pub fn completion(response: Response) -> (event: WorkerEvent)
    ensures
        event == match response {
            Response::Completed(output) => WorkerEvent::ExecSucceeded(output),
            Response::Failed => WorkerEvent::ExecFailed,
        },
    no_unwind
{
    match response {
        Response::Completed(output) => WorkerEvent::ExecSucceeded(output),
        Response::Failed => WorkerEvent::ExecFailed,
    }
}

/// The event that reports how backend initialisation ended.
pub open spec fn init_event(succeeded: bool) -> WorkerEvent {
    if succeeded {
        WorkerEvent::InitSucceeded
    } else {
        WorkerEvent::InitFailed
    }
}

/// The event that reports how backend initialisation ended.
pub fn init_outcome(succeeded: bool) -> (event: WorkerEvent)
    ensures
        event == init_event(succeeded),
    no_unwind
{
    if succeeded {
        WorkerEvent::InitSucceeded
    } else {
        WorkerEvent::InitFailed
    }
}

/// What the end of backend initialisation comes to for a worker whose
/// readiness signal travels over a channel: where the worker stands
/// afterwards and what its host is told, given how the channel answered
/// the signal.
///
/// Only an initialising worker is moved. On success it raises the readiness
/// gate and is ready, unless the caller's end is gone, in which case it
/// terminates with `PeerDisconnected`; a channel that already holds the
/// signal counts as raised. On failure it terminates with
/// `BackendInitFailed` and nothing is put on the channel.
pub open spec fn finishing_init(state: WorkerState, succeeded: bool, outcome: SendOutcome) -> (
    WorkerState,
    Result<WorkerAction, ProtocolError>,
) {
    let event = init_event(succeeded);
    match action_for(state, event) {
        WorkerAction::RaiseGate => if outcome == SendOutcome::Disconnected {
            (WorkerState::Terminated, Err(ProtocolError::PeerDisconnected))
        } else {
            (next_state(state, event), Ok(WorkerAction::RaiseGate))
        },
        WorkerAction::Abandon => (next_state(state, event), Err(ProtocolError::BackendInitFailed)),
        other => (next_state(state, event), Ok(other)),
    }
}

/// Decides what follows for an initialising worker whose backend came up,
/// from how the channel answered the readiness signal.
pub fn gate_sent(outcome: SendOutcome) -> (told: (WorkerState, Result<WorkerAction, ProtocolError>))
    ensures
        told == finishing_init(WorkerState::Initializing, true, outcome),
{
    let (state, action) = step(WorkerState::Initializing, WorkerEvent::InitSucceeded);
    match outcome {
        SendOutcome::Disconnected => (
            WorkerState::Terminated,
            Err(ProtocolError::PeerDisconnected),
        ),
        _ => (state, Ok(action)),
    }
}

/// What the backend's answer to the request in hand comes to for a worker
/// whose response travels over a channel: where the worker stands
/// afterwards and what its host is told, given how the channel answered
/// the response.
///
/// Only a busy worker is moved. It is ready again if the response was
/// delivered, and also if the channel still held an earlier response, in
/// which case the host is told `ChannelBusy`; it terminates with
/// `PeerDisconnected` if the caller's end is gone. A worker with no
/// request in hand ignores the answer and puts nothing on the channel.
pub open spec fn responding(state: WorkerState, response: Response, outcome: SendOutcome) -> (
    WorkerState,
    Result<WorkerAction, ProtocolError>,
) {
    let event = completion_event(response);
    match action_for(state, event) {
        WorkerAction::Respond(answer) => match outcome {
            SendOutcome::Delivered => (next_state(state, event), Ok(WorkerAction::Respond(answer))),
            SendOutcome::Full => (next_state(state, event), Err(ProtocolError::ChannelBusy)),
            SendOutcome::Disconnected => (
                WorkerState::Terminated,
                Err(ProtocolError::PeerDisconnected),
            ),
        },
        _ => (state, Ok(WorkerAction::Ignore)),
    }
}

/// Decides what follows for a busy worker from how the channel answered
/// the response it put there.
pub fn response_sent(response: Response, outcome: SendOutcome) -> (told: (
    WorkerState,
    Result<WorkerAction, ProtocolError>,
))
    ensures
        told == responding(WorkerState::Busy, response, outcome),
{
    let (state, action) = step(WorkerState::Busy, completion(response));
    match outcome {
        SendOutcome::Delivered => (state, Ok(action)),
        SendOutcome::Full => (state, Err(ProtocolError::ChannelBusy)),
        SendOutcome::Disconnected => (
            WorkerState::Terminated,
            Err(ProtocolError::PeerDisconnected),
        ),
    }
}

/// The state after a whole sequence of events, taken in order.
pub open spec fn run(state: WorkerState, events: Seq<WorkerEvent>) -> WorkerState
    decreases events.len(),
{
    if events.len() == 0 {
        state
    } else {
        run(next_state(state, events[0]), events.drop_first())
    }
}

/// The actions a whole sequence of events asks for, one per event.
pub open spec fn actions(state: WorkerState, events: Seq<WorkerEvent>) -> Seq<WorkerAction>
    decreases events.len(),
{
    if events.len() == 0 {
        Seq::empty()
    } else {
        seq![action_for(state, events[0])] + actions(
            next_state(state, events[0]),
            events.drop_first(),
        )
    }
}

/// How often `wanted` occurs among `taken`.
pub open spec fn occurrences(taken: Seq<WorkerAction>, wanted: WorkerAction) -> nat
    decreases taken.len(),
{
    if taken.len() == 0 {
        0
    } else {
        let rest = occurrences(taken.drop_first(), wanted);
        if taken[0] == wanted {
            rest + 1
        } else {
            rest
        }
    }
}

/// The backend is handed a request only by a worker that is ready, and the
/// worker is busy from then on: no second request reaches the backend until
/// the first has left it.
pub proof fn law_one_request_with_the_backend(state: WorkerState, event: WorkerEvent)
    ensures
        action_for(state, event) is Execute ==> state == WorkerState::Ready && next_state(
            state,
            event,
        ) == WorkerState::Busy,
        state == WorkerState::Busy ==> !(action_for(state, event) is Execute),
{
}

/// A busy worker answers whatever the backend did: success and failure both
/// put a response on the way, and the worker is ready again.
pub proof fn law_every_request_is_answered(response: Response)
    ensures
        action_for(WorkerState::Busy, completion_event(response)) == WorkerAction::Respond(
            response,
        ),
        next_state(WorkerState::Busy, completion_event(response)) == WorkerState::Ready,
{
}

/// The event that reports `response`, as a specification.
pub open spec fn completion_event(response: Response) -> WorkerEvent {
    match response {
        Response::Completed(output) => WorkerEvent::ExecSucceeded(output),
        Response::Failed => WorkerEvent::ExecFailed,
    }
}

/// A terminated worker stays terminated and asks for nothing.
pub proof fn law_terminated_is_final(events: Seq<WorkerEvent>)
    ensures
        run(WorkerState::Terminated, events) == WorkerState::Terminated,
        occurrences(actions(WorkerState::Terminated, events), WorkerAction::Ignore)
            == events.len(),
    decreases events.len(),
{
    if events.len() > 0 {
        law_terminated_is_final(events.drop_first());
        let taken = actions(WorkerState::Terminated, events);
        assert(taken.drop_first() =~= actions(WorkerState::Terminated, events.drop_first()));
    }
}

/// How many times the readiness gate can still be raised from `state`.
pub open spec fn raises_left(state: WorkerState) -> nat {
    match state {
        WorkerState::Uninitialized => 1,
        WorkerState::Initializing => 1,
        _ => 0,
    }
}

/// Whatever happens to a worker, it raises the readiness gate at most once,
/// and never again once it has been ready.
pub proof fn law_gate_raised_at_most_once(state: WorkerState, events: Seq<WorkerEvent>)
    ensures
        occurrences(actions(state, events), WorkerAction::RaiseGate) <= raises_left(state),
    decreases events.len(),
{
    if events.len() > 0 {
        let after = next_state(state, events[0]);
        law_gate_raised_at_most_once(after, events.drop_first());
        let taken = actions(state, events);
        assert(taken.drop_first() =~= actions(after, events.drop_first()));
    }
}

/// A worker that is ready at the end of a run raised the readiness gate exactly once
/// on the way there from its creation.
pub proof fn law_ready_means_gate_raised(events: Seq<WorkerEvent>)
    requires
        run(WorkerState::Uninitialized, events) == WorkerState::Ready || run(
            WorkerState::Uninitialized,
            events,
        ) == WorkerState::Busy,
    ensures
        occurrences(actions(WorkerState::Uninitialized, events), WorkerAction::RaiseGate) == 1,
{
    lemma_raises_on_the_way(WorkerState::Uninitialized, events);
}

proof fn lemma_raises_on_the_way(state: WorkerState, events: Seq<WorkerEvent>)
    requires
        run(state, events) == WorkerState::Ready || run(state, events) == WorkerState::Busy,
    ensures
        occurrences(actions(state, events), WorkerAction::RaiseGate) == raises_left(state),
    decreases events.len(),
{
    if events.len() > 0 {
        let after = next_state(state, events[0]);
        lemma_raises_on_the_way(after, events.drop_first());
        law_terminated_is_final(events.drop_first());
        let taken = actions(state, events);
        assert(taken.drop_first() =~= actions(after, events.drop_first()));
    }
}

} // verus!
