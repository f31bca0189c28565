//! A whole session held in one value: the request slot, the response slot,
//! the readiness gate, the worker's state and the broker's bookkeeping.
//!
//! This is the doorbell-and-cell realisation of the protocol. Every method
//! is one step of one party, so a caller and a worker that take turns on
//! one thread can drive a session directly; `call` does so for a backend
//! that answers in place.

use vstd::prelude::*;
use crate::broker::{Broker, RecvOutcome, SendOutcome, reply_result};
use crate::error::ProtocolError;
use crate::gate::ReadinessGate;
use crate::payload::{FixedInput, FixedOutput, Response};
use crate::slot::{FixedSlot, after_send};
use crate::worker::{
    WorkerAction,
    WorkerEvent,
    WorkerState,
    action_for,
    completion,
    completion_event,
    init_event,
    next_state,
    step,
};

verus! {

/// What a session is, as far as the protocol can tell.
pub struct SessionView {
    /// The request on its way to the worker, if any.
    pub request: Option<FixedInput>,
    /// The response on its way to the caller, if any.
    pub response: Option<Response>,
    /// Whether the readiness gate has been raised.
    pub gate_raised: bool,
    /// Where the worker stands.
    pub worker: WorkerState,
    /// What the broker knows.
    pub broker: Broker,
}

impl SessionView {
    /// How many requests are under way: one on the request slot, one with
    /// the backend, one answered but not yet drained.
    pub open spec fn in_flight(self) -> int {
        (if self.request is Some { 1int } else { 0 })
        + (if self.worker == WorkerState::Busy { 1int } else { 0 })
        + (if self.response is Some { 1int } else { 0 })
    }

    /// What holds of every session, whatever the two parties did.
    pub open spec fn wf(self) -> bool {
        &&& self.in_flight() <= 1
        &&& self.gate_raised ==> self.worker != WorkerState::Uninitialized
            && self.worker != WorkerState::Initializing
        &&& self.worker == WorkerState::Ready || self.worker == WorkerState::Busy
            ==> self.gate_raised
        &&& self.broker.ready_seen ==> self.gate_raised
        &&& self.broker.awaiting ==> self.broker.ready_seen
        &&& self.response is Some || self.worker == WorkerState::Busy ==> self.broker.awaiting
        &&& self.request is Some && self.worker != WorkerState::Terminated
            ==> self.broker.awaiting
    }

    /// A session nobody has touched yet.
    pub open spec fn fresh() -> SessionView {
        SessionView {
            request: None,
            response: None,
            gate_raised: false,
            worker: WorkerState::Uninitialized,
            broker: Broker { ready_seen: false, awaiting: false },
        }
    }

    /// Whether the worker has ended.
    pub open spec fn worker_gone(self) -> bool {
        self.worker == WorkerState::Terminated
    }

    /// What the request slot answers to a send.
    pub open spec fn request_outcome(self) -> SendOutcome {
        if self.worker_gone() {
            SendOutcome::Disconnected
        } else if self.request is Some {
            SendOutcome::Full
        } else {
            SendOutcome::Delivered
        }
    }

    /// What the response slot answers to a receive.
    pub open spec fn response_outcome(self) -> RecvOutcome<Response> {
        match self.response {
            Some(response) => RecvOutcome::Arrived(response),
            None => if self.worker_gone() {
                RecvOutcome::Disconnected
            } else {
                RecvOutcome::Empty
            },
        }
    }

    /// What `submit` returns: what the broker's rules give when the
    /// readiness gate and the request slot are as the session holds them.
    pub open spec fn submit_result(self) -> Result<(), ProtocolError> {
        self.broker.submitting(self.gate_raised, self.request_outcome()).1
    }

    /// The session after `submit(input)`. The request is on its slot only
    /// if it was accepted.
    pub open spec fn after_submit(self, input: FixedInput) -> SessionView {
        SessionView {
            request: if self.submit_result() is Ok {
                Some(input)
            } else {
                self.request
            },
            broker: self.broker.submitting(self.gate_raised, self.request_outcome()).0,
            ..self
        }
    }

    /// What `collect` returns.
    pub open spec fn collect_result(self) -> Option<Result<FixedOutput, ProtocolError>> {
        self.broker.collecting(self.response_outcome()).1
    }

    /// The session after `collect`.
    pub open spec fn after_collect(self) -> SessionView {
        SessionView {
            response: None,
            broker: self.broker.collecting(self.response_outcome()).0,
            ..self
        }
    }

    /// The session after the worker was told of `event`, for every event
    /// but the arrival of a request.
    pub open spec fn after_event(self, event: WorkerEvent) -> SessionView {
        SessionView {
            worker: next_state(self.worker, event),
            gate_raised: self.gate_raised || action_for(self.worker, event)
                == WorkerAction::RaiseGate,
            response: match action_for(self.worker, event) {
                WorkerAction::Respond(response) => after_send(self.response, response),
                _ => self.response,
            },
            ..self
        }
    }

    /// What `worker_poll` returns: the pending request, if the worker is
    /// ready for one.
    pub open spec fn poll_result(self) -> Option<FixedInput> {
        if self.worker == WorkerState::Ready {
            self.request
        } else {
            None
        }
    }

    /// The session after `worker_poll`.
    pub open spec fn after_poll(self) -> SessionView {
        match self.poll_result() {
            Some(input) => SessionView {
                request: None,
                worker: next_state(self.worker, WorkerEvent::RequestReceived(input)),
                ..self
            },
            None => self,
        }
    }

    /// The session after a whole call whose request was accepted and whose
    /// response was drained.
    pub open spec fn settled(self) -> SessionView {
        SessionView { broker: Broker { ready_seen: true, awaiting: false }, ..self }
    }
}

/// The five parts of a session. Each step below is one step of one party;
/// it takes a well-formed session to a well-formed one.
struct Parts {
    request: FixedSlot<FixedInput>,
    response: FixedSlot<Response>,
    gate: ReadinessGate,
    worker: WorkerState,
    broker: Broker,
}

impl Parts {
    spec fn view(&self) -> SessionView {
        SessionView {
            request: self.request@,
            response: self.response@,
            gate_raised: self.gate@,
            worker: self.worker,
            broker: self.broker,
        }
    }

    fn new() -> (parts: Self)
        ensures
            parts.view() == SessionView::fresh(),
    {
        Parts {
            request: FixedSlot::new(FixedInput { lane0: 0, lane1: 0 }),
            response: FixedSlot::new(Response::Failed),
            gate: ReadinessGate::new(),
            worker: WorkerState::Uninitialized,
            broker: Broker::new(),
        }
    }

    fn in_flight(&self) -> (count: u8)
        ensures
            count == self.view().in_flight(),
    {
        let mut count: u8 = 0;
        if self.request.is_pending() {
            count = count + 1;
        }
        if self.response.is_pending() {
            count = count + 1;
        }
        match self.worker {
            WorkerState::Busy => {
                count = count + 1;
            },
            _ => {},
        }
        count
    }

    fn event(&mut self, event: WorkerEvent) -> (action: WorkerAction)
        requires
            old(self).view().wf(),
            !(event is RequestReceived),
        ensures
            action == action_for(old(self).view().worker, event),
            final(self).view() == old(self).view().after_event(event),
            final(self).view().wf(),
        no_unwind
    {
        let (state, action) = step(self.worker, event);
        self.worker = state;
        match action {
            WorkerAction::RaiseGate => {
                self.gate.raise();
            },
            WorkerAction::Respond(response) => {
                let _sent = self.response.send(response);
            },
            _ => {},
        }
        action
    }

    fn poll(&mut self) -> (taken: Option<FixedInput>)
        requires
            old(self).view().wf(),
        ensures
            taken == old(self).view().poll_result(),
            final(self).view() == old(self).view().after_poll(),
            final(self).view().wf(),
        no_unwind
    {
        match self.worker {
            WorkerState::Ready => {
                match self.request.receive() {
                    Some(input) => {
                        let (state, _action) = step(
                            self.worker,
                            WorkerEvent::RequestReceived(input),
                        );
                        self.worker = state;
                        Some(input)
                    },
                    None => None,
                }
            },
            _ => None,
        }
    }

    fn submit(&mut self, input: FixedInput) -> (sent: Result<(), ProtocolError>)
        requires
            old(self).view().wf(),
        ensures
            sent == old(self).view().submit_result(),
            final(self).view() == old(self).view().after_submit(input),
            final(self).view().wf(),
        no_unwind
    {
        let raised = self.gate.is_raised();
        self.broker.observe_gate(raised);
        match self.broker.may_send() {
            Err(refusal) => Err(refusal),
            Ok(_) => {
                let outcome = match self.worker {
                    WorkerState::Terminated => SendOutcome::Disconnected,
                    _ => match self.request.send(input) {
                        Ok(_) => SendOutcome::Delivered,
                        Err(_) => SendOutcome::Full,
                    },
                };
                self.broker.record_send(outcome)
            },
        }
    }

    fn collect(&mut self) -> (verdict: Option<Result<FixedOutput, ProtocolError>>)
        requires
            old(self).view().wf(),
        ensures
            verdict == old(self).view().collect_result(),
            final(self).view() == old(self).view().after_collect(),
            final(self).view().wf(),
        no_unwind
    {
        let outcome = match self.response.receive() {
            Some(response) => RecvOutcome::Arrived(response),
            None => match self.worker {
                WorkerState::Terminated => RecvOutcome::Disconnected,
                _ => RecvOutcome::Empty,
            },
        };
        self.broker.record_reply(outcome)
    }
}

/// A session. Its parts are private: the two parties change it only through
/// the steps below, so every session a program holds satisfies
/// `SessionView::wf`.
pub struct Session {
    parts: Parts,
}

impl View for Session {
    type V = SessionView;

    closed spec fn view(&self) -> SessionView {
        self.parts.view()
    }
}

impl Session {
    #[verifier::type_invariant]
    spec fn well_formed(self) -> bool {
        self.parts.view().wf()
    }

    /// A session with an uninitialised worker, a lowered gate and empty
    /// slots.
    pub fn new() -> (session: Self)
        ensures
            session@ == SessionView::fresh(),
    {
        Session { parts: Parts::new() }
    }

    pub fn worker_state(&self) -> (state: WorkerState)
        ensures
            state == self@.worker,
    {
        self.parts.worker
    }

    pub fn broker(&self) -> (broker: Broker)
        ensures
            broker == self@.broker,
    {
        self.parts.broker
    }

    /// Whether the readiness gate has been raised.
    pub fn is_ready(&self) -> (raised: bool)
        ensures
            raised == self@.gate_raised,
    {
        self.parts.gate.is_raised()
    }

    /// How many requests are under way: never more than one.
    pub fn in_flight(&self) -> (count: u8)
        ensures
            count == self@.in_flight(),
            count <= 1,
    {
        proof {
            use_type_invariant(self);
        }
        self.parts.in_flight()
    }

    /// Worker side: the worker's context started.
    pub fn worker_start(&mut self) -> (action: WorkerAction)
        ensures
            action == action_for(old(self)@.worker, WorkerEvent::Started),
            final(self)@ == old(self)@.after_event(WorkerEvent::Started),
    {
        proof {
            use_type_invariant(&*self);
        }
        self.parts.event(WorkerEvent::Started)
    }

    /// Worker side: backend initialisation ended. On success the readiness gate is
    /// raised; on failure the worker terminates and the readiness gate stays down for
    /// good.
    pub fn worker_finish_init(&mut self, succeeded: bool) -> (action: WorkerAction)
        ensures
            action == action_for(old(self)@.worker, init_event(succeeded)),
            final(self)@ == old(self)@.after_event(init_event(succeeded)),
    {
        proof {
            use_type_invariant(&*self);
        }
        if succeeded {
            self.parts.event(WorkerEvent::InitSucceeded)
        } else {
            self.parts.event(WorkerEvent::InitFailed)
        }
    }

    /// Worker side: one turn of receiving a request. A ready worker takes
    /// the pending request and is busy with it; otherwise nothing moves.
    pub fn worker_poll(&mut self) -> (taken: Option<FixedInput>)
        ensures
            taken == old(self)@.poll_result(),
            final(self)@ == old(self)@.after_poll(),
    {
        proof {
            use_type_invariant(&*self);
        }
        self.parts.poll()
    }

    /// Worker side: the backend answered the request in hand. The response
    /// goes on the response slot and the worker is ready again. A worker
    /// that has no request in hand ignores this.
    pub fn worker_respond(&mut self, response: Response) -> (action: WorkerAction)
        ensures
            action == action_for(old(self)@.worker, completion_event(response)),
            final(self)@ == old(self)@.after_event(completion_event(response)),
    {
        proof {
            use_type_invariant(&*self);
        }
        let event = completion(response);
        self.parts.event(event)
    }

    /// Worker side: the worker's context is ending.
    pub fn worker_stop(&mut self) -> (action: WorkerAction)
        ensures
            action == action_for(old(self)@.worker, WorkerEvent::HostEnded),
            final(self)@ == old(self)@.after_event(WorkerEvent::HostEnded),
    {
        proof {
            use_type_invariant(&*self);
        }
        self.parts.event(WorkerEvent::HostEnded)
    }

    /// Caller side: sends a request without waiting for its response.
    ///
    /// Refused with `NotReady` while the readiness gate is down, with `ChannelBusy`
    /// while an earlier request of this broker is outstanding, and with
    /// `PeerDisconnected` once the worker has ended. A refused request
    /// leaves both slots and the worker as they were.
    pub fn submit(&mut self, input: FixedInput) -> (sent: Result<(), ProtocolError>)
        ensures
            sent == old(self)@.submit_result(),
            final(self)@ == old(self)@.after_submit(input),
    {
        proof {
            use_type_invariant(&*self);
        }
        self.parts.submit(input)
    }

    /// Caller side: one turn of receiving the response. `None` while the
    /// response is still to come; a failed response comes out as
    /// `BackendExecFailed`; an empty slot with the worker gone comes out as
    /// `PeerDisconnected`.
    pub fn collect(&mut self) -> (verdict: Option<Result<FixedOutput, ProtocolError>>)
        ensures
            verdict == old(self)@.collect_result(),
            final(self)@ == old(self)@.after_collect(),
    {
        proof {
            use_type_invariant(&*self);
        }
        self.parts.collect()
    }

    /// A whole call on one thread: sends the request, lets the worker take
    /// it, runs `backend` on it, lets the worker answer, and drains the
    /// response.
    ///
    /// A refused request never reaches `backend`. An accepted one is handed
    /// to `backend` as it is, and what the caller gets is what `backend`
    /// returned: its result unchanged, or `BackendExecFailed` for a failed
    /// response. The session is then ready for the next call.
    pub fn call<F: FnOnce(FixedInput) -> Response>(&mut self, input: FixedInput, backend: F) -> (answer:
        Result<FixedOutput, ProtocolError>)
        requires
            backend.requires((input,)),
        ensures
            old(self)@.submit_result() matches Err(refusal) ==> answer == Err::<FixedOutput, _>(
                refusal,
            ) && final(self)@ == old(self)@.after_submit(input),
            old(self)@.submit_result() is Ok ==> final(self)@ == old(self)@.settled() && exists|
                response: Response,
            |
                backend.ensures((input,), response) && answer == reply_result(response),
    {
        proof {
            use_type_invariant(&*self);
        }
        match self.parts.submit(input) {
            Err(refusal) => Err(refusal),
            Ok(_) => {
                let _taken = self.parts.poll();
                let response = backend(input);
                self.parts.event(completion(response));
                let verdict = self.parts.collect();
                match verdict {
                    Some(answer) => answer,
                    None => Err(ProtocolError::PeerDisconnected),
                }
            },
        }
    }
}

} // verus!
