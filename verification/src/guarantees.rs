//! What a session guarantees, proved over `SessionView`.
//!
//! Every statement here is about the steps of `Session`: `submit`,
//! `collect`, `worker_poll` and the worker events. The contracts of those
//! methods say that they move a session exactly as `after_submit`,
//! `after_collect`, `after_poll` and `after_event` do, so what is proved of
//! these holds of every session a program drives.

use vstd::prelude::*;
use crate::broker::reply_result;
use crate::error::ProtocolError;
use crate::payload::{FixedInput, FixedOutput, Response};
use crate::session::SessionView;
use crate::worker::{WorkerEvent, WorkerState, completion_event};

verus! {

/// A new session is well-formed, and every step of either party takes a
/// well-formed session to a well-formed one. In particular at most one
/// request is under way at any time.
pub proof fn law_steps_keep_sessions_well_formed(
    session: SessionView,
    input: FixedInput,
    event: WorkerEvent,
)
    requires
        session.wf(),
        !(event is RequestReceived),
    ensures
        SessionView::fresh().wf(),
        session.after_submit(input).wf(),
        session.after_collect().wf(),
        session.after_poll().wf(),
        session.after_event(event).wf(),
        session.in_flight() <= 1,
{
}

/// The readiness gate is never lowered: no step of either party takes a
/// raised gate down.
pub proof fn law_gate_stays_raised(session: SessionView, input: FixedInput, event: WorkerEvent)
    requires
        session.gate_raised,
    ensures
        session.after_submit(input).gate_raised,
        session.after_collect().gate_raised,
        session.after_poll().gate_raised,
        session.after_event(event).gate_raised,
{
}

/// A request that is accepted reaches the backend as it was sent, and what
/// the caller collects is what the backend answered: its result unchanged,
/// or `BackendExecFailed` for a failure. Afterwards the session is where it
/// was, ready for the next request.
pub proof fn law_result_passes_through(session: SessionView, input: FixedInput, response: Response)
    requires
        session.wf(),
        session.submit_result() is Ok,
    ensures
        session.after_submit(input).poll_result() == Some(input),
        session.after_submit(input).after_poll().after_event(
            completion_event(response),
        ).collect_result() == Some(reply_result(response)),
        session.after_submit(input).after_poll().after_event(
            completion_event(response),
        ).after_collect() == session.settled(),
        session.settled().submit_result() is Ok,
{
}

/// The same for a backend that succeeds: the caller gets exactly `output`.
pub proof fn law_output_is_returned_unchanged(
    session: SessionView,
    input: FixedInput,
    output: FixedOutput,
)
    requires
        session.wf(),
        session.submit_result() is Ok,
    ensures
        session.after_submit(input).after_poll().after_event(
            WorkerEvent::ExecSucceeded(output),
        ).collect_result() == Some(Ok::<FixedOutput, ProtocolError>(output)),
{
    law_result_passes_through(session, input, Response::Completed(output));
}

/// While a request of the broker is outstanding, wherever it is on its way,
/// another request is refused with `ChannelBusy` and the session stays as
/// it is: nothing in flight is overwritten.
pub proof fn law_one_request_in_flight(session: SessionView, input: FixedInput)
    requires
        session.wf(),
        session.broker.awaiting,
    ensures
        session.submit_result() == Err::<(), _>(ProtocolError::ChannelBusy),
        session.after_submit(input) == session,
{
}

/// A second request issued right after an accepted first one is refused
/// with `ChannelBusy`, and the first is still the one on the request slot.
pub proof fn law_second_request_is_refused(
    session: SessionView,
    first: FixedInput,
    second: FixedInput,
)
    requires
        session.wf(),
        session.submit_result() is Ok,
    ensures
        session.after_submit(first).request == Some(first),
        session.after_submit(first).submit_result() == Err::<(), _>(ProtocolError::ChannelBusy),
        session.after_submit(first).after_submit(second) == session.after_submit(first),
{
    law_one_request_in_flight(session.after_submit(first), second);
}

/// Before the readiness gate is raised every request is refused with
/// `NotReady`; the session stays as it is, and the worker is handed
/// nothing.
pub proof fn law_not_ready_before_the_gate_rises(session: SessionView, input: FixedInput)
    requires
        session.wf(),
        !session.gate_raised,
    ensures
        session.submit_result() == Err::<(), _>(ProtocolError::NotReady),
        session.after_submit(input) == session,
        session.poll_result() is None,
{
}

/// A request is accepted exactly when the readiness gate is raised, no
/// request of the broker is outstanding, and the worker is still there.
pub proof fn law_when_a_request_is_accepted(session: SessionView)
    requires
        session.wf(),
    ensures
        session.submit_result() is Ok <==> session.gate_raised && !session.broker.awaiting
            && !session.worker_gone(),
        session.submit_result() == Err::<(), _>(ProtocolError::NotReady)
            <==> !session.gate_raised,
        session.submit_result() == Err::<(), _>(ProtocolError::ChannelBusy)
            <==> session.gate_raised && session.broker.awaiting,
        session.submit_result() == Err::<(), _>(ProtocolError::PeerDisconnected)
            <==> session.gate_raised && !session.broker.awaiting && session.worker_gone(),
{
}

/// A backend failure on one request does not reach the next: the first
/// caller is told `BackendExecFailed`, the next request is accepted, and
/// its caller gets the backend's result.
pub proof fn law_failure_stays_with_its_request(
    session: SessionView,
    first: FixedInput,
    second: FixedInput,
    output: FixedOutput,
)
    requires
        session.wf(),
        session.submit_result() is Ok,
    ensures
        ({
            let failed = session.after_submit(first).after_poll().after_event(
                WorkerEvent::ExecFailed,
            );
            let drained = failed.after_collect();
            &&& failed.collect_result() == Some(
                Err::<FixedOutput, _>(ProtocolError::BackendExecFailed),
            )
            &&& drained.worker == WorkerState::Ready
            &&& drained.submit_result() is Ok
            &&& drained.after_submit(second).poll_result() == Some(second)
            &&& drained.after_submit(second).after_poll().after_event(
                WorkerEvent::ExecSucceeded(output),
            ).collect_result() == Some(Ok::<FixedOutput, ProtocolError>(output))
        }),
{
    law_result_passes_through(session, first, Response::Failed);
    law_result_passes_through(session.settled(), second, Response::Completed(output));
}

/// Once the worker has ended it stays ended, whatever either party does.
pub proof fn law_worker_stays_gone(session: SessionView, input: FixedInput, event: WorkerEvent)
    requires
        session.worker_gone(),
    ensures
        session.after_submit(input).worker_gone(),
        session.after_collect().worker_gone(),
        session.after_poll().worker_gone(),
        session.after_event(event).worker_gone(),
        session.after_event(event).response == session.response,
        session.poll_result() is None,
{
}

/// Once the worker has ended, a caller is told so instead of being left
/// waiting. A broker that waits for a response gets `PeerDisconnected` as
/// soon as the response slot is empty; a new request on a session whose
/// gate had been raised is refused with `PeerDisconnected`, and keeps being
/// refused.
pub proof fn law_calls_fail_once_the_worker_is_gone(session: SessionView, input: FixedInput)
    requires
        session.wf(),
        session.worker_gone(),
    ensures
        session.response is None ==> session.collect_result() == Some(
            Err::<FixedOutput, _>(ProtocolError::PeerDisconnected),
        ),
        !session.after_collect().broker.awaiting,
        session.gate_raised && !session.broker.awaiting ==> session.submit_result() == Err::<
            (),
            _,
        >(ProtocolError::PeerDisconnected) && session.after_submit(input).submit_result()
            == Err::<(), _>(ProtocolError::PeerDisconnected),
        session.gate_raised ==> session.after_collect().submit_result() == Err::<(), _>(
            ProtocolError::PeerDisconnected,
        ),
{
}

/// A worker whose backend never came up leaves the readiness gate down for
/// good: it terminates without raising it, and every later request is
/// refused with `NotReady`.
pub proof fn law_failed_init_never_raises_the_gate(session: SessionView, input: FixedInput)
    requires
        session.wf(),
        session.worker == WorkerState::Initializing,
    ensures
        session.after_event(WorkerEvent::InitFailed).worker_gone(),
        !session.after_event(WorkerEvent::InitFailed).gate_raised,
        session.after_event(WorkerEvent::InitFailed).submit_result() == Err::<(), _>(
            ProtocolError::NotReady,
        ),
{
}

} // verus!
