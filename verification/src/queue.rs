//! The protocol over bounded queues of capacity one.
//!
//! A session is three `flume` channels: one for requests, one for
//! responses, and one that carries the readiness signal. The broker holds
//! one end of each and the worker the other, so the two can live on
//! different threads. What a channel answers depends on what the other side
//! did in the meantime; the contracts here therefore say what holds
//! whatever the channel answered, and `Broker` and `worker::step` say what
//! follows from each answer.

use vstd::prelude::*;
use crate::broker::{Broker, RecvOutcome, SendOutcome, gate_shows_ready};
use crate::doorbell::signal_value;
use crate::error::ProtocolError;
use crate::payload::{FixedInput, FixedOutput, Response};
use crate::worker::{
    WorkerAction,
    WorkerEvent,
    WorkerState,
    action_for,
    completion,
    finishing_init,
    gate_sent,
    init_outcome,
    next_state,
    responding,
    response_sent,
    step,
};

verus! {

/// How many payloads each channel of a session holds.
pub const SLOT_CAPACITY: usize = 1;

#[verifier::external_type_specification]
#[verifier::external_body]
#[verifier::reject_recursive_types(T)]
pub struct ExSender<T>(flume::Sender<T>);

#[verifier::external_type_specification]
#[verifier::external_body]
#[verifier::reject_recursive_types(T)]
pub struct ExReceiver<T>(flume::Receiver<T>);

/// How many payloads the request channel behind `sender` was made to hold.
pub uninterp spec fn request_limit(sender: flume::Sender<FixedInput>) -> nat;

/// How many payloads the response channel behind `sender` was made to hold.
pub uninterp spec fn response_limit(sender: flume::Sender<Response>) -> nat;

/// How many signals the readiness channel behind `sender` was made to hold.
pub uninterp spec fn gate_limit(sender: flume::Sender<u32>) -> nat;

/// `flume::bounded`, once for each channel of a session: the two ends of a
/// new request channel, of a new response channel and of a new readiness
/// channel, each made to hold at most `capacity` payloads. Nothing else is
/// claimed of the ends.
#[verifier::external_body]
fn bounded(capacity: usize) -> (ends: (
    (flume::Sender<FixedInput>, flume::Receiver<FixedInput>),
    (flume::Sender<Response>, flume::Receiver<Response>),
    (flume::Sender<u32>, flume::Receiver<u32>),
))
    ensures
        request_limit(ends.0.0) == capacity,
        response_limit(ends.1.0) == capacity,
        gate_limit(ends.2.0) == capacity,
{
    (flume::bounded(capacity), flume::bounded(capacity), flume::bounded(capacity))
}

/// `flume::Sender::try_send`: puts `payload` on the channel without
/// waiting. Which of the three outcomes comes back depends on the channel's
/// other end, so nothing is claimed of it.
#[verifier::external_body]
fn try_send<T>(sender: &flume::Sender<T>, payload: T) -> (outcome: SendOutcome) {
    match sender.try_send(payload) {
        Ok(()) => SendOutcome::Delivered,
        Err(flume::TrySendError::Full(_)) => SendOutcome::Full,
        Err(flume::TrySendError::Disconnected(_)) => SendOutcome::Disconnected,
    }
}

/// `flume::Receiver::try_recv`: takes a payload from the channel without
/// waiting. Which of the three outcomes comes back depends on the channel's
/// other end, so nothing is claimed of it.
#[verifier::external_body]
fn try_recv<T>(receiver: &flume::Receiver<T>) -> (outcome: RecvOutcome<T>) {
    match receiver.try_recv() {
        Ok(payload) => RecvOutcome::Arrived(payload),
        Err(flume::TryRecvError::Empty) => RecvOutcome::Empty,
        Err(flume::TryRecvError::Disconnected) => RecvOutcome::Disconnected,
    }
}

/// `flume::Receiver::recv`: waits until a payload can be taken or every
/// sender is gone, and gives the payload or nothing. It does not return at
/// all while a sender stays alive and silent. Which of the two comes back
/// depends on the channel's other end, so nothing is claimed of it.
#[verifier::external_body]
fn recv<T>(receiver: &flume::Receiver<T>) -> (taken: Option<T>) {
    match receiver.recv() {
        Ok(payload) => Some(payload),
        Err(flume::RecvError::Disconnected) => None,
    }
}

/// How a wait on a channel ended: with the payload, or with the news that
/// no sender is left. A wait never ends on a channel that is merely empty.
fn waited<T>(taken: Option<T>) -> (outcome: RecvOutcome<T>)
    ensures
        outcome == match taken {
            Some(payload) => RecvOutcome::Arrived(payload),
            None => RecvOutcome::Disconnected,
        },
        !(outcome is Empty),
{
    match taken {
        Some(payload) => RecvOutcome::Arrived(payload),
        None => RecvOutcome::Disconnected,
    }
}

/// The caller's end of a session. Its view is the broker's bookkeeping.
pub struct QueueBroker {
    requests: flume::Sender<FixedInput>,
    responses: flume::Receiver<Response>,
    gate: flume::Receiver<u32>,
    state: Broker,
}

/// The worker's end of a session.
pub struct QueueWorker {
    requests: flume::Receiver<FixedInput>,
    responses: flume::Sender<Response>,
    gate: flume::Sender<u32>,
    state: WorkerState,
}

/// Opens a session: a broker that has seen nothing yet and a worker that
/// has not been started, joined by three empty channels. Each channel is
/// made to hold one payload; the broker has the sending end of the request
/// channel, the worker the sending ends of the other two.
pub fn open_session() -> (ends: (QueueBroker, QueueWorker))
    ensures
        ends.0@ == (Broker { ready_seen: false, awaiting: false }),
        ends.1@ == WorkerState::Uninitialized,
        ends.0.request_capacity() == SLOT_CAPACITY,
        ends.1.response_capacity() == SLOT_CAPACITY,
        ends.1.gate_capacity() == SLOT_CAPACITY,
{
    let channels = bounded(SLOT_CAPACITY);
    let (request_tx, request_rx) = channels.0;
    let (response_tx, response_rx) = channels.1;
    let (gate_tx, gate_rx) = channels.2;
    let broker = QueueBroker {
        requests: request_tx,
        responses: response_rx,
        gate: gate_rx,
        state: Broker::new(),
    };
    let worker = QueueWorker {
        requests: request_rx,
        responses: response_tx,
        gate: gate_tx,
        state: WorkerState::Uninitialized,
    };
    (broker, worker)
}

impl View for QueueBroker {
    type V = Broker;

    closed spec fn view(&self) -> Broker {
        self.state
    }
}

/// The failures a caller can be handed when a request is refused.
pub open spec fn is_send_refusal(refusal: ProtocolError) -> bool {
    refusal == ProtocolError::NotReady || refusal == ProtocolError::ChannelBusy || refusal
        == ProtocolError::PeerDisconnected
}

/// The failures a caller can be handed in place of a result.
pub open spec fn is_reply_failure(failure: ProtocolError) -> bool {
    failure == ProtocolError::BackendExecFailed || failure == ProtocolError::PeerDisconnected
}

impl QueueBroker {
    #[verifier::type_invariant]
    spec fn well_formed(self) -> bool {
        &&& self.state.awaiting ==> self.state.ready_seen
        &&& request_limit(self.requests) == SLOT_CAPACITY
    }

    /// How many requests the session's request channel was made to hold.
    pub closed spec fn request_capacity(&self) -> nat {
        request_limit(self.requests)
    }

    /// What the broker knows.
    pub fn state(&self) -> (state: Broker)
        ensures
            state == self@,
            state.awaiting ==> state.ready_seen,
    {
        proof {
            use_type_invariant(self);
        }
        self.state
    }

    /// Looks at the readiness gate without waiting, unless it has been seen
    /// raised before, and says whether the broker has seen it raised by now.
    pub fn poll_ready(&mut self) -> (ready: bool)
        ensures
            ready == final(self)@.ready_seen,
            old(self)@.ready_seen ==> ready,
            final(self)@.awaiting == old(self)@.awaiting,
    {
        proof {
            use_type_invariant(&*self);
        }
        if !self.state.ready_seen {
            let look = try_recv(&self.gate);
            let raised = gate_shows_ready(look);
            self.state.observe_gate(raised);
        }
        self.state.ready_seen
    }

    /// Waits on the readiness gate, unless it has been seen raised before,
    /// and says whether the broker has seen it raised by now. The answer is
    /// no only if the worker went away without raising it.
    pub fn wait_ready(&mut self) -> (ready: bool)
        ensures
            ready == final(self)@.ready_seen,
            old(self)@.ready_seen ==> ready,
            final(self)@.awaiting == old(self)@.awaiting,
    {
        proof {
            use_type_invariant(&*self);
        }
        if !self.state.ready_seen {
            let look = waited(recv(&self.gate));
            let raised = gate_shows_ready(look);
            self.state.observe_gate(raised);
        }
        self.state.ready_seen
    }

    /// Sends a request without waiting for its response.
    ///
    /// The broker looks at the readiness gate first if it has not seen it
    /// raised. The request is refused with `NotReady` exactly when the
    /// broker still has not; with `ChannelBusy`, and without touching the
    /// channel, while an earlier request is outstanding; and otherwise as
    /// the request channel decides: `ChannelBusy` when it is full,
    /// `PeerDisconnected` when the worker is gone. Only a request that was
    /// sent is outstanding afterwards.
    pub fn submit(&mut self, input: FixedInput) -> (sent: Result<(), ProtocolError>)
        ensures
            old(self)@.awaiting ==> sent == Err::<(), _>(ProtocolError::ChannelBusy) && final(self)@ == old(self)@,
            sent == Err::<(), _>(ProtocolError::NotReady) <==> !final(self)@.ready_seen,
            old(self)@.ready_seen ==> final(self)@.ready_seen,
            sent is Ok ==> !old(self)@.awaiting && final(self)@.awaiting,
            sent matches Err(refusal) ==> is_send_refusal(refusal) && final(self)@.awaiting
                == old(self)@.awaiting,
            exists|raised: bool, outcome: SendOutcome|
                (final(self)@, sent) == #[trigger] old(self)@.submitting(raised, outcome),
    {
        proof {
            use_type_invariant(&*self);
        }
        let raised = self.poll_ready();
        proof {
            use_type_invariant(&*self);
        }
        match self.state.may_send() {
            Err(refusal) => {
                assert((self@, Err::<(), _>(refusal)) == old(self)@.submitting(
                    raised,
                    SendOutcome::Full,
                ));
                Err(refusal)
            },
            Ok(_) => {
                let outcome = try_send(&self.requests, input);
                let sent = self.state.record_send(outcome);
                assert((self@, sent) == old(self)@.submitting(raised, outcome));
                sent
            },
        }
    }

    /// One turn of receiving the response, without waiting.
    ///
    /// `None` means that nothing has arrived and the worker is still there;
    /// the broker is as it was. Anything else drains the outstanding
    /// request: the backend's result, `BackendExecFailed` for a failed
    /// response, or `PeerDisconnected` when the worker is gone and left
    /// nothing.
    pub fn collect(&mut self) -> (verdict: Option<Result<FixedOutput, ProtocolError>>)
        ensures
            verdict is None ==> final(self)@ == old(self)@,
            verdict is Some ==> !final(self)@.awaiting,
            final(self)@.ready_seen == old(self)@.ready_seen,
            verdict matches Some(Err(failure)) ==> is_reply_failure(failure),
            exists|reply: RecvOutcome<Response>|
                (final(self)@, verdict) == #[trigger] old(self)@.collecting(reply),
    {
        proof {
            use_type_invariant(&*self);
        }
        let reply = try_recv(&self.responses);
        let ghost answered = reply;
        let verdict = self.state.record_reply(reply);
        assert((self@, verdict) == old(self)@.collecting(answered));
        verdict
    }

    /// A whole call: waits for the readiness gate if need be, sends the
    /// request, and waits for its response.
    ///
    /// Fails with `NotReady` exactly when the worker went away without ever
    /// raising the readiness gate; with `ChannelBusy`, at once, while an
    /// earlier request is outstanding or the request channel is full; with
    /// `PeerDisconnected` when the worker is gone; with `BackendExecFailed`
    /// when the backend failed on this request. A call that sent its
    /// request leaves nothing outstanding.
    pub fn call(&mut self, input: FixedInput) -> (answer: Result<FixedOutput, ProtocolError>)
        ensures
            old(self)@.awaiting ==> answer == Err::<FixedOutput, _>(ProtocolError::ChannelBusy)
                && final(self)@ == old(self)@,
            answer == Err::<FixedOutput, _>(ProtocolError::NotReady) <==> !final(self)@.ready_seen,
            old(self)@.ready_seen ==> final(self)@.ready_seen,
            !old(self)@.awaiting ==> !final(self)@.awaiting,
            answer is Ok ==> final(self)@ == (Broker { ready_seen: true, awaiting: false }),
            answer matches Err(failure) ==> is_send_refusal(failure) || is_reply_failure(failure),
            exists|raised: bool, outcome: SendOutcome, reply: RecvOutcome<Response>|
                !(reply is Empty) && (final(self)@, answer) == #[trigger] old(self)@.calling(
                    raised,
                    outcome,
                    reply,
                ),
    {
        proof {
            use_type_invariant(&*self);
        }
        let raised = self.wait_ready();
        proof {
            use_type_invariant(&*self);
        }
        match self.state.may_send() {
            Err(refusal) => {
                assert((self@, Err::<FixedOutput, _>(refusal)) == old(self)@.calling(
                    raised,
                    SendOutcome::Full,
                    RecvOutcome::Disconnected,
                ));
                Err(refusal)
            },
            Ok(_) => {
                let outcome = try_send(&self.requests, input);
                match self.state.record_send(outcome) {
                    Err(refusal) => {
                        assert((self@, Err::<FixedOutput, _>(refusal)) == old(self)@.calling(
                            raised,
                            outcome,
                            RecvOutcome::Disconnected,
                        ));
                        Err(refusal)
                    },
                    Ok(_) => {
                        let reply = waited(recv(&self.responses));
                        let ghost answered = reply;
                        let answer = match self.state.record_reply(reply) {
                            Some(answer) => answer,
                            None => Err(ProtocolError::PeerDisconnected),
                        };
                        assert((self@, answer) == old(self)@.calling(raised, outcome, answered));
                        answer
                    },
                }
            },
        }
    }
}

/// What a worker that cannot take a request is told, by its state.
pub open spec fn not_serving(state: WorkerState) -> ProtocolError {
    match state {
        WorkerState::Busy => ProtocolError::ChannelBusy,
        WorkerState::Terminated => ProtocolError::PeerDisconnected,
        _ => ProtocolError::NotReady,
    }
}

impl View for QueueWorker {
    type V = WorkerState;

    closed spec fn view(&self) -> WorkerState {
        self.state
    }
}

impl QueueWorker {
    #[verifier::type_invariant]
    spec fn well_formed(self) -> bool {
        &&& response_limit(self.responses) == SLOT_CAPACITY
        &&& gate_limit(self.gate) == SLOT_CAPACITY
    }

    /// How many responses the session's response channel was made to hold.
    pub closed spec fn response_capacity(&self) -> nat {
        response_limit(self.responses)
    }

    /// How many signals the session's readiness channel was made to hold.
    pub closed spec fn gate_capacity(&self) -> nat {
        gate_limit(self.gate)
    }

    /// Where the worker stands.
    pub fn state(&self) -> (state: WorkerState)
        ensures
            state == self@,
    {
        self.state
    }

    /// The worker's context started: an uninitialised worker begins to
    /// initialise its backend.
    pub fn start(&mut self) -> (action: WorkerAction)
        ensures
            action == action_for(old(self)@, WorkerEvent::Started),
            final(self)@ == next_state(old(self)@, WorkerEvent::Started),
    {
        proof {
            use_type_invariant(&*self);
        }
        let (state, action) = step(self.state, WorkerEvent::Started);
        self.state = state;
        action
    }

    /// Backend initialisation ended.
    ///
    /// On success an initialising worker becomes ready and raises the
    /// readiness gate; if the caller's end is gone by then, the worker
    /// terminates and this fails with `PeerDisconnected`. On failure the
    /// worker terminates, the readiness gate stays down, and this fails with
    /// `BackendInitFailed`. A worker that is not initialising ignores the
    /// news.
    pub fn finish_init(&mut self, succeeded: bool) -> (done: Result<WorkerAction, ProtocolError>)
        ensures
            old(self)@ != WorkerState::Initializing ==> final(self)@ == old(self)@ && done == Ok::<_, ProtocolError>(
                action_for(old(self)@, WorkerEvent::InitSucceeded),
            ),
            old(self)@ == WorkerState::Initializing && !succeeded ==> final(self)@
                == WorkerState::Terminated && done == Err::<WorkerAction, _>(
                ProtocolError::BackendInitFailed,
            ),
            old(self)@ == WorkerState::Initializing && succeeded ==> {
                ||| final(self)@ == WorkerState::Ready && done == Ok::<_, ProtocolError>(
                    WorkerAction::RaiseGate,
                )
                ||| final(self)@ == WorkerState::Terminated && done == Err::<
                    WorkerAction,
                    _,
                >(ProtocolError::PeerDisconnected)
            },
            exists|outcome: SendOutcome|
                (final(self)@, done) == #[trigger] finishing_init(old(self)@, succeeded, outcome),
    {
        proof {
            use_type_invariant(&*self);
        }
        let (state, action) = step(self.state, init_outcome(succeeded));
        match action {
            WorkerAction::RaiseGate => {
                let outcome = try_send(&self.gate, signal_value());
                let (after, done) = gate_sent(outcome);
                self.state = after;
                assert((self@, done) == finishing_init(old(self)@, succeeded, outcome));
                done
            },
            WorkerAction::Abandon => {
                self.state = state;
                let done = Err(ProtocolError::BackendInitFailed);
                assert((self@, done) == finishing_init(old(self)@, succeeded, SendOutcome::Full));
                done
            },
            _ => {
                self.state = state;
                let done = Ok(action);
                assert((self@, done) == finishing_init(old(self)@, succeeded, SendOutcome::Full));
                done
            },
        }
    }

    /// Tells the worker what a receive on the request channel brought.
    fn take(&mut self, arrival: RecvOutcome<FixedInput>) -> (taken: Result<
        Option<FixedInput>,
        ProtocolError,
    >)
        requires
            old(self)@ == WorkerState::Ready,
        ensures
            taken == match arrival {
                RecvOutcome::Arrived(input) => Ok::<_, ProtocolError>(Some(input)),
                RecvOutcome::Empty => Ok(None),
                RecvOutcome::Disconnected => Err(ProtocolError::PeerDisconnected),
            },
            final(self)@ == match arrival {
                RecvOutcome::Arrived(input) => WorkerState::Busy,
                RecvOutcome::Empty => WorkerState::Ready,
                RecvOutcome::Disconnected => WorkerState::Terminated,
            },
    {
        proof {
            use_type_invariant(&*self);
        }
        match arrival {
            RecvOutcome::Arrived(input) => {
                let (state, _action) = step(self.state, WorkerEvent::RequestReceived(input));
                self.state = state;
                Ok(Some(input))
            },
            RecvOutcome::Empty => Ok(None),
            RecvOutcome::Disconnected => {
                let (state, _action) = step(self.state, WorkerEvent::HostEnded);
                self.state = state;
                Err(ProtocolError::PeerDisconnected)
            },
        }
    }

    /// Waits for the next request.
    ///
    /// A worker that is not ready takes nothing and is told why: `NotReady`
    /// before its backend is up, `ChannelBusy` while a request is in hand,
    /// `PeerDisconnected` once terminated. A ready worker waits; it comes
    /// back busy with the request, or terminated with `PeerDisconnected`
    /// when the caller's end is gone.
    pub fn next_request(&mut self) -> (taken: Result<FixedInput, ProtocolError>)
        ensures
            old(self)@ != WorkerState::Ready ==> taken == Err::<FixedInput, _>(
                not_serving(old(self)@),
            ) && final(self)@ == old(self)@,
            old(self)@ == WorkerState::Ready ==> {
                ||| taken is Ok && final(self)@ == WorkerState::Busy
                ||| taken == Err::<FixedInput, _>(ProtocolError::PeerDisconnected) && final(self)@ == WorkerState::Terminated
            },
    {
        proof {
            use_type_invariant(&*self);
        }
        match self.state {
            WorkerState::Ready => {
                let arrival = waited(recv(&self.requests));
                match self.take(arrival) {
                    Ok(Some(input)) => Ok(input),
                    Ok(None) => Err(ProtocolError::PeerDisconnected),
                    Err(failure) => Err(failure),
                }
            },
            WorkerState::Busy => Err(ProtocolError::ChannelBusy),
            WorkerState::Terminated => Err(ProtocolError::PeerDisconnected),
            _ => Err(ProtocolError::NotReady),
        }
    }

    /// One turn of receiving the next request, without waiting. As
    /// `next_request`, but a ready worker that finds nothing stays ready
    /// and gets `None`.
    pub fn poll_request(&mut self) -> (taken: Result<Option<FixedInput>, ProtocolError>)
        ensures
            old(self)@ != WorkerState::Ready ==> taken == Err::<Option<FixedInput>, _>(
                not_serving(old(self)@),
            ) && final(self)@ == old(self)@,
            old(self)@ == WorkerState::Ready ==> {
                ||| taken matches Ok(Some(_)) && final(self)@ == WorkerState::Busy
                ||| taken == Ok::<Option<FixedInput>, ProtocolError>(None) && final(self)@ == WorkerState::Ready
                ||| taken == Err::<Option<FixedInput>, _>(ProtocolError::PeerDisconnected)
                    && final(self)@ == WorkerState::Terminated
            },
    {
        proof {
            use_type_invariant(&*self);
        }
        match self.state {
            WorkerState::Ready => {
                let arrival = try_recv(&self.requests);
                self.take(arrival)
            },
            WorkerState::Busy => Err(ProtocolError::ChannelBusy),
            WorkerState::Terminated => Err(ProtocolError::PeerDisconnected),
            _ => Err(ProtocolError::NotReady),
        }
    }

    /// The backend answered the request in hand.
    ///
    /// A busy worker is ready again and puts the response on the response
    /// channel, whatever the backend did. If the channel still holds an
    /// earlier response this fails with `ChannelBusy`; if the caller's end
    /// is gone the worker terminates and this fails with
    /// `PeerDisconnected`. A worker with no request in hand ignores the
    /// news.
    pub fn respond(&mut self, response: Response) -> (done: Result<WorkerAction, ProtocolError>)
        ensures
            old(self)@ != WorkerState::Busy ==> final(self)@ == old(self)@
                && done == Ok::<_, ProtocolError>(WorkerAction::Ignore),
            old(self)@ == WorkerState::Busy ==> {
                ||| final(self)@ == WorkerState::Ready && done == Ok::<_, ProtocolError>(
                    WorkerAction::Respond(response),
                )
                ||| final(self)@ == WorkerState::Ready && done == Err::<WorkerAction, _>(
                    ProtocolError::ChannelBusy,
                )
                ||| final(self)@ == WorkerState::Terminated && done == Err::<
                    WorkerAction,
                    _,
                >(ProtocolError::PeerDisconnected)
            },
            exists|outcome: SendOutcome|
                (final(self)@, done) == #[trigger] responding(old(self)@, response, outcome),
    {
        proof {
            use_type_invariant(&*self);
        }
        let (_state, action) = step(self.state, completion(response));
        match action {
            WorkerAction::Respond(answer) => {
                let outcome = try_send(&self.responses, answer);
                let (after, done) = response_sent(answer, outcome);
                self.state = after;
                assert((self@, done) == responding(old(self)@, response, outcome));
                done
            },
            _ => {
                let done = Ok(WorkerAction::Ignore);
                assert((self@, done) == responding(old(self)@, response, SendOutcome::Full));
                done
            },
        }
    }

    /// The worker's context is ending. The worker's ends of the channels
    /// go with it, which is how the caller's end learns of it.
    pub fn stop(self) -> (action: WorkerAction)
        ensures
            action == action_for(self@, WorkerEvent::HostEnded),
    {
        let (_state, action) = step(self.state, WorkerEvent::HostEnded);
        action
    }
}

} // verus!
