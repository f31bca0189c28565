use slot_handoff::broker::Broker;
use slot_handoff::error::ProtocolError;
use slot_handoff::payload::{FixedInput, FixedOutput, Response};
use slot_handoff::session::Session;
use slot_handoff::worker::{WorkerAction, WorkerState};

fn sum_backend(input: FixedInput) -> Response {
    Response::Completed(FixedOutput::new(input.lane0.wrapping_add(input.lane1)))
}

fn failing_backend(_input: FixedInput) -> Response {
    Response::Failed
}

fn ready_session() -> Session {
    let mut session = Session::new();
    assert_eq!(session.worker_start(), WorkerAction::Initialize);
    assert_eq!(session.worker_finish_init(true), WorkerAction::RaiseGate);
    session
}

#[test]
fn new_session_is_untouched() {
    let session = Session::new();
    assert_eq!(session.worker_state(), WorkerState::Uninitialized);
    assert!(!session.is_ready());
    assert_eq!(session.in_flight(), 0);
    assert_eq!(
        session.broker(),
        Broker {
            ready_seen: false,
            awaiting: false
        }
    );
}

#[test]
fn call_returns_the_sum_of_one_and_two() {
    let mut session = ready_session();
    let answer = session.call(FixedInput::new(1, 2), sum_backend);
    assert_eq!(answer, Ok(FixedOutput::new(3)));
    assert_eq!(session.worker_state(), WorkerState::Ready);
    assert_eq!(session.in_flight(), 0);
    assert_eq!(
        session.broker(),
        Broker {
            ready_seen: true,
            awaiting: false
        }
    );
}

#[test]
fn call_passes_every_result_through() {
    let mut session = ready_session();
    let mut seed: u32 = 7;
    for _ in 0..500 {
        seed = seed.wrapping_mul(1_664_525).wrapping_add(1_013_904_223);
        let a = seed;
        seed = seed.wrapping_mul(1_664_525).wrapping_add(1_013_904_223);
        let b = seed;
        let answer = session.call(FixedInput::new(a, b), sum_backend);
        assert_eq!(answer, Ok(FixedOutput::new(a.wrapping_add(b))));
    }
}

#[test]
fn call_hands_the_backend_the_request_as_sent() {
    let mut session = ready_session();
    let answer = session.call(FixedInput::new(40, 2), |input: FixedInput| {
        assert_eq!(input, FixedInput::new(40, 2));
        Response::Completed(FixedOutput::new(input.lane0 - input.lane1))
    });
    assert_eq!(answer, Ok(FixedOutput::new(38)));
}

#[test]
fn call_before_readiness_is_refused() {
    let mut session = Session::new();
    let answer = session.call(FixedInput::new(1, 2), |_input: FixedInput| -> Response {
        panic!("the backend must not be reached")
    });
    assert_eq!(answer, Err(ProtocolError::NotReady));
    assert_eq!(session.worker_state(), WorkerState::Uninitialized);
    assert_eq!(session.in_flight(), 0);

    session.worker_start();
    let answer = session.call(FixedInput::new(1, 2), |_input: FixedInput| -> Response {
        panic!("the backend must not be reached")
    });
    assert_eq!(answer, Err(ProtocolError::NotReady));
    assert_eq!(session.worker_state(), WorkerState::Initializing);
    assert_eq!(session.worker_poll(), None);
}

#[test]
fn submit_before_readiness_leaves_nothing_in_flight() {
    let mut session = Session::new();
    assert_eq!(
        session.submit(FixedInput::new(1, 2)),
        Err(ProtocolError::NotReady)
    );
    assert_eq!(session.in_flight(), 0);
    assert_eq!(session.worker_poll(), None);
    assert_eq!(session.collect(), None);
}

#[test]
fn second_submit_is_refused_until_the_response_is_drained() {
    let mut session = ready_session();
    assert_eq!(session.submit(FixedInput::new(1, 2)), Ok(()));
    assert_eq!(session.in_flight(), 1);
    assert_eq!(
        session.submit(FixedInput::new(9, 9)),
        Err(ProtocolError::ChannelBusy)
    );

    assert_eq!(session.worker_poll(), Some(FixedInput::new(1, 2)));
    assert_eq!(session.worker_state(), WorkerState::Busy);
    assert_eq!(session.in_flight(), 1);
    assert_eq!(
        session.submit(FixedInput::new(9, 9)),
        Err(ProtocolError::ChannelBusy)
    );
    assert_eq!(session.worker_poll(), None);

    let response = Response::Completed(FixedOutput::new(3));
    assert_eq!(
        session.worker_respond(response),
        WorkerAction::Respond(response)
    );
    assert_eq!(session.in_flight(), 1);
    assert_eq!(
        session.submit(FixedInput::new(9, 9)),
        Err(ProtocolError::ChannelBusy)
    );

    assert_eq!(session.collect(), Some(Ok(FixedOutput::new(3))));
    assert_eq!(session.in_flight(), 0);
    assert_eq!(session.submit(FixedInput::new(9, 9)), Ok(()));
    assert_eq!(session.worker_poll(), Some(FixedInput::new(9, 9)));
}

#[test]
fn call_while_a_request_is_outstanding_is_busy() {
    let mut session = ready_session();
    assert_eq!(session.submit(FixedInput::new(1, 2)), Ok(()));
    let answer = session.call(FixedInput::new(5, 5), |_input: FixedInput| -> Response {
        panic!("the backend must not be reached")
    });
    assert_eq!(answer, Err(ProtocolError::ChannelBusy));
    assert_eq!(session.worker_poll(), Some(FixedInput::new(1, 2)));
}

#[test]
fn collect_waits_for_the_worker() {
    let mut session = ready_session();
    assert_eq!(session.collect(), None);
    assert_eq!(session.submit(FixedInput::new(1, 2)), Ok(()));
    assert_eq!(session.collect(), None);
    assert_eq!(session.worker_poll(), Some(FixedInput::new(1, 2)));
    assert_eq!(session.collect(), None);
    session.worker_respond(Response::Completed(FixedOutput::new(3)));
    assert_eq!(session.collect(), Some(Ok(FixedOutput::new(3))));
    assert_eq!(session.collect(), None);
}

#[test]
fn backend_failure_does_not_poison_the_next_request() {
    let mut session = ready_session();
    assert_eq!(
        session.call(FixedInput::new(1, 2), failing_backend),
        Err(ProtocolError::BackendExecFailed)
    );
    assert_eq!(session.worker_state(), WorkerState::Ready);
    assert_eq!(session.in_flight(), 0);
    assert_eq!(
        session.call(FixedInput::new(1, 2), sum_backend),
        Ok(FixedOutput::new(3))
    );
    assert_eq!(
        session.call(FixedInput::new(10, 20), failing_backend),
        Err(ProtocolError::BackendExecFailed)
    );
    assert_eq!(
        session.call(FixedInput::new(10, 20), sum_backend),
        Ok(FixedOutput::new(30))
    );
}

#[test]
fn failed_init_leaves_the_session_not_ready() {
    let mut session = Session::new();
    session.worker_start();
    assert_eq!(session.worker_finish_init(false), WorkerAction::Abandon);
    assert_eq!(session.worker_state(), WorkerState::Terminated);
    assert!(!session.is_ready());
    assert_eq!(
        session.call(FixedInput::new(1, 2), sum_backend),
        Err(ProtocolError::NotReady)
    );
    assert_eq!(session.worker_start(), WorkerAction::Ignore);
    assert_eq!(session.worker_finish_init(true), WorkerAction::Ignore);
    assert!(!session.is_ready());
}

#[test]
fn calls_after_the_worker_ended_are_disconnected() {
    let mut session = ready_session();
    assert_eq!(
        session.call(FixedInput::new(1, 2), sum_backend),
        Ok(FixedOutput::new(3))
    );
    assert_eq!(session.worker_stop(), WorkerAction::Stop);
    assert_eq!(session.worker_state(), WorkerState::Terminated);
    for _ in 0..3 {
        assert_eq!(
            session.call(FixedInput::new(1, 2), sum_backend),
            Err(ProtocolError::PeerDisconnected)
        );
    }
    assert_eq!(
        session.submit(FixedInput::new(1, 2)),
        Err(ProtocolError::PeerDisconnected)
    );
    assert_eq!(session.in_flight(), 0);
}

#[test]
fn waiting_caller_learns_that_the_worker_ended() {
    let mut session = ready_session();
    assert_eq!(session.submit(FixedInput::new(1, 2)), Ok(()));
    assert_eq!(session.worker_poll(), Some(FixedInput::new(1, 2)));
    assert_eq!(session.worker_stop(), WorkerAction::Stop);
    assert_eq!(
        session.worker_respond(Response::Completed(FixedOutput::new(3))),
        WorkerAction::Ignore
    );
    assert_eq!(session.collect(), Some(Err(ProtocolError::PeerDisconnected)));
    assert_eq!(
        session.submit(FixedInput::new(1, 2)),
        Err(ProtocolError::PeerDisconnected)
    );
}

#[test]
fn response_sent_before_the_worker_ended_is_still_drained() {
    let mut session = ready_session();
    assert_eq!(session.submit(FixedInput::new(1, 2)), Ok(()));
    assert_eq!(session.worker_poll(), Some(FixedInput::new(1, 2)));
    session.worker_respond(Response::Completed(FixedOutput::new(3)));
    session.worker_stop();
    assert_eq!(session.collect(), Some(Ok(FixedOutput::new(3))));
    assert_eq!(session.collect(), Some(Err(ProtocolError::PeerDisconnected)));
}

#[test]
fn gate_is_raised_once_and_stays_raised() {
    let mut session = ready_session();
    assert!(session.is_ready());
    assert_eq!(session.worker_finish_init(true), WorkerAction::Ignore);
    assert_eq!(session.worker_start(), WorkerAction::Ignore);
    assert!(session.is_ready());
    session.worker_stop();
    assert!(session.is_ready());
}

#[test]
fn worker_without_a_request_ignores_a_completion() {
    let mut session = ready_session();
    assert_eq!(
        session.worker_respond(Response::Completed(FixedOutput::new(3))),
        WorkerAction::Ignore
    );
    assert_eq!(session.collect(), None);
    assert_eq!(session.in_flight(), 0);
}
