use slot_handoff::broker::{gate_shows_ready, Broker, RecvOutcome, SendOutcome};
use slot_handoff::error::ProtocolError;
use slot_handoff::payload::{FixedInput, FixedOutput, Response};
use slot_handoff::worker::{
    completion, gate_sent, init_outcome, response_sent, step, WorkerAction, WorkerEvent,
    WorkerState,
};

fn all_states() -> Vec<WorkerState> {
    vec![
        WorkerState::Uninitialized,
        WorkerState::Initializing,
        WorkerState::Ready,
        WorkerState::Busy,
        WorkerState::Terminated,
    ]
}

fn all_events() -> Vec<WorkerEvent> {
    vec![
        WorkerEvent::Started,
        WorkerEvent::InitSucceeded,
        WorkerEvent::InitFailed,
        WorkerEvent::RequestReceived(FixedInput::new(1, 2)),
        WorkerEvent::ExecSucceeded(FixedOutput::new(3)),
        WorkerEvent::ExecFailed,
        WorkerEvent::HostEnded,
    ]
}

#[test]
fn worker_walks_through_its_life() {
    let input = FixedInput::new(1, 2);
    let output = FixedOutput::new(3);
    assert_eq!(
        step(WorkerState::Uninitialized, WorkerEvent::Started),
        (WorkerState::Initializing, WorkerAction::Initialize)
    );
    assert_eq!(
        step(WorkerState::Initializing, WorkerEvent::InitSucceeded),
        (WorkerState::Ready, WorkerAction::RaiseGate)
    );
    assert_eq!(
        step(WorkerState::Ready, WorkerEvent::RequestReceived(input)),
        (WorkerState::Busy, WorkerAction::Execute(input))
    );
    assert_eq!(
        step(WorkerState::Busy, WorkerEvent::ExecSucceeded(output)),
        (
            WorkerState::Ready,
            WorkerAction::Respond(Response::Completed(output))
        )
    );
    assert_eq!(
        step(WorkerState::Ready, WorkerEvent::HostEnded),
        (WorkerState::Terminated, WorkerAction::Stop)
    );
}

#[test]
fn failed_init_terminates_without_raising() {
    assert_eq!(
        step(WorkerState::Initializing, WorkerEvent::InitFailed),
        (WorkerState::Terminated, WorkerAction::Abandon)
    );
}

#[test]
fn failed_exec_still_responds_and_worker_is_ready_again() {
    assert_eq!(
        step(WorkerState::Busy, WorkerEvent::ExecFailed),
        (WorkerState::Ready, WorkerAction::Respond(Response::Failed))
    );
    let next = FixedInput::new(4, 5);
    assert_eq!(
        step(WorkerState::Ready, WorkerEvent::RequestReceived(next)),
        (WorkerState::Busy, WorkerAction::Execute(next))
    );
}

#[test]
fn host_end_terminates_from_every_live_state() {
    for state in all_states() {
        let expected = if state == WorkerState::Terminated {
            (WorkerState::Terminated, WorkerAction::Ignore)
        } else {
            (WorkerState::Terminated, WorkerAction::Stop)
        };
        assert_eq!(step(state, WorkerEvent::HostEnded), expected);
    }
}

#[test]
fn terminated_worker_ignores_everything() {
    for event in all_events() {
        assert_eq!(
            step(WorkerState::Terminated, event),
            (WorkerState::Terminated, WorkerAction::Ignore)
        );
    }
}

#[test]
fn events_without_a_transition_are_ignored() {
    let mut moved = 0;
    for state in all_states() {
        for event in all_events() {
            let (next, action) = step(state, event);
            if action == WorkerAction::Ignore {
                assert_eq!(next, state);
            } else {
                moved += 1;
            }
        }
    }
    assert_eq!(moved, 10);
}

#[test]
fn busy_worker_takes_no_second_request() {
    assert_eq!(
        step(
            WorkerState::Busy,
            WorkerEvent::RequestReceived(FixedInput::new(8, 8))
        ),
        (WorkerState::Busy, WorkerAction::Ignore)
    );
    for state in all_states() {
        for event in all_events() {
            let (next, action) = step(state, event);
            if let WorkerAction::Execute(_) = action {
                assert_eq!(state, WorkerState::Ready);
                assert_eq!(next, WorkerState::Busy);
            }
        }
    }
}

#[test]
fn gate_raised_at_most_once_along_any_short_run() {
    let events = all_events();
    let count = events.len();
    for a in 0..count {
        for b in 0..count {
            for c in 0..count {
                for d in 0..count {
                    let mut state = WorkerState::Uninitialized;
                    let mut raised = 0;
                    for index in [a, b, c, d] {
                        let (next, action) = step(state, events[index]);
                        if action == WorkerAction::RaiseGate {
                            raised += 1;
                        }
                        state = next;
                    }
                    assert!(raised <= 1);
                    if state == WorkerState::Ready || state == WorkerState::Busy {
                        assert_eq!(raised, 1);
                    }
                }
            }
        }
    }
}

#[test]
fn completion_names_the_event() {
    assert_eq!(
        completion(Response::Completed(FixedOutput::new(3))),
        WorkerEvent::ExecSucceeded(FixedOutput::new(3))
    );
    assert_eq!(completion(Response::Failed), WorkerEvent::ExecFailed);
}

#[test]
fn new_broker_is_not_ready() {
    let broker = Broker::new();
    assert!(!broker.ready_seen);
    assert!(!broker.awaiting);
    assert_eq!(broker.may_send(), Err(ProtocolError::NotReady));
}

#[test]
fn broker_remembers_a_raised_gate() {
    let mut broker = Broker::new();
    broker.observe_gate(false);
    assert_eq!(broker.may_send(), Err(ProtocolError::NotReady));
    broker.observe_gate(true);
    assert_eq!(broker.may_send(), Ok(()));
    broker.observe_gate(false);
    assert_eq!(broker.may_send(), Ok(()));
}

#[test]
fn broker_send_verdicts() {
    let mut broker = Broker::new();
    broker.observe_gate(true);
    assert_eq!(
        broker.record_send(SendOutcome::Full),
        Err(ProtocolError::ChannelBusy)
    );
    assert!(!broker.awaiting);
    assert_eq!(
        broker.record_send(SendOutcome::Disconnected),
        Err(ProtocolError::PeerDisconnected)
    );
    assert!(!broker.awaiting);
    assert_eq!(broker.record_send(SendOutcome::Delivered), Ok(()));
    assert!(broker.awaiting);
    assert_eq!(broker.may_send(), Err(ProtocolError::ChannelBusy));
}

#[test]
fn broker_reply_verdicts() {
    let mut broker = Broker {
        ready_seen: true,
        awaiting: true,
    };
    assert_eq!(broker.record_reply(RecvOutcome::Empty), None);
    assert!(broker.awaiting);
    assert_eq!(
        broker.record_reply(RecvOutcome::Arrived(Response::Completed(FixedOutput::new(3)))),
        Some(Ok(FixedOutput::new(3)))
    );
    assert!(!broker.awaiting);

    let mut broker = Broker {
        ready_seen: true,
        awaiting: true,
    };
    assert_eq!(
        broker.record_reply(RecvOutcome::Arrived(Response::Failed)),
        Some(Err(ProtocolError::BackendExecFailed))
    );
    assert!(!broker.awaiting);

    let mut broker = Broker {
        ready_seen: true,
        awaiting: true,
    };
    assert_eq!(
        broker.record_reply(RecvOutcome::Disconnected),
        Some(Err(ProtocolError::PeerDisconnected))
    );
    assert!(!broker.awaiting);
    assert!(broker.ready_seen);
}

#[test]
fn gate_looks() {
    assert!(gate_shows_ready(RecvOutcome::Arrived(1)));
    assert!(gate_shows_ready(RecvOutcome::Arrived(2)));
    assert!(!gate_shows_ready(RecvOutcome::Arrived(0)));
    assert!(!gate_shows_ready(RecvOutcome::Empty));
    assert!(!gate_shows_ready(RecvOutcome::Disconnected));
}

#[test]
fn which_failures_end_a_session() {
    assert!(ProtocolError::NotReady.is_recoverable());
    assert!(ProtocolError::ChannelBusy.is_recoverable());
    assert!(ProtocolError::BackendExecFailed.is_recoverable());
    assert!(!ProtocolError::BackendInitFailed.is_recoverable());
    assert!(!ProtocolError::PeerDisconnected.is_recoverable());
}

#[test]
fn init_outcome_names_the_event() {
    assert_eq!(init_outcome(true), WorkerEvent::InitSucceeded);
    assert_eq!(init_outcome(false), WorkerEvent::InitFailed);
}

#[test]
fn gate_sent_by_outcome() {
    assert_eq!(
        gate_sent(SendOutcome::Delivered),
        (WorkerState::Ready, Ok(WorkerAction::RaiseGate))
    );
    assert_eq!(
        gate_sent(SendOutcome::Full),
        (WorkerState::Ready, Ok(WorkerAction::RaiseGate))
    );
    assert_eq!(
        gate_sent(SendOutcome::Disconnected),
        (
            WorkerState::Terminated,
            Err(ProtocolError::PeerDisconnected)
        )
    );
}

#[test]
fn response_sent_by_outcome() {
    let response = Response::Completed(FixedOutput::new(3));
    assert_eq!(
        response_sent(response, SendOutcome::Delivered),
        (WorkerState::Ready, Ok(WorkerAction::Respond(response)))
    );
    assert_eq!(
        response_sent(Response::Failed, SendOutcome::Delivered),
        (
            WorkerState::Ready,
            Ok(WorkerAction::Respond(Response::Failed))
        )
    );
    assert_eq!(
        response_sent(response, SendOutcome::Full),
        (WorkerState::Ready, Err(ProtocolError::ChannelBusy))
    );
    assert_eq!(
        response_sent(response, SendOutcome::Disconnected),
        (
            WorkerState::Terminated,
            Err(ProtocolError::PeerDisconnected)
        )
    );
}
