use slot_handoff::doorbell::{
    after_wake, signal_value, wake_ups_needed, Doorbell, WaitStep, IDLE, SIGNALED,
};
use slot_handoff::error::ProtocolError;
use slot_handoff::gate::ReadinessGate;
use slot_handoff::payload::{FixedInput, FixedOutput, Response};
use slot_handoff::slot::FixedSlot;

#[test]
fn cell_values() {
    assert_eq!(IDLE, 0);
    assert_eq!(SIGNALED, 1);
}

#[test]
fn new_doorbell_is_idle() {
    let bell = Doorbell::new();
    assert!(!bell.is_signaled());
    assert_eq!(bell.load(), 0);
    assert_eq!(bell.wait_until_signaled(), WaitStep::Park);
}

#[test]
fn signal_then_wait_does_not_park() {
    let mut bell = Doorbell::new();
    bell.signal();
    assert_eq!(bell.load(), 1);
    assert_eq!(bell.wait_until_signaled(), WaitStep::Proceed);
}

#[test]
fn wait_on_an_already_signaled_cell_does_not_park() {
    let mut bell = Doorbell::new();
    bell.signal();
    bell.signal();
    assert!(bell.is_signaled());
    assert_eq!(bell.load(), 1);
    assert_eq!(bell.wait_until_signaled(), WaitStep::Proceed);
    assert_eq!(bell.wait_until_signaled(), WaitStep::Proceed);
}

#[test]
fn reset_arms_the_doorbell_again() {
    let mut bell = Doorbell::new();
    bell.signal();
    bell.reset();
    assert!(!bell.is_signaled());
    assert_eq!(bell.load(), 0);
    assert_eq!(bell.wait_until_signaled(), WaitStep::Park);
    bell.reset();
    assert_eq!(bell.load(), 0);
    bell.signal();
    assert_eq!(bell.wait_until_signaled(), WaitStep::Proceed);
}

#[test]
fn after_wake_parks_only_on_idle() {
    assert_eq!(after_wake(0), WaitStep::Park);
    assert_eq!(after_wake(1), WaitStep::Proceed);
    assert_eq!(after_wake(2), WaitStep::Proceed);
    assert_eq!(after_wake(u32::MAX), WaitStep::Proceed);
}

#[test]
fn spurious_wake_ups_are_skipped() {
    assert_eq!(wake_ups_needed(&[0, 0, 1]), Some(2));
    assert_eq!(wake_ups_needed(&[1]), Some(0));
    assert_eq!(wake_ups_needed(&[1, 0, 1]), Some(0));
    assert_eq!(wake_ups_needed(&[0, 5, 0]), Some(1));
}

#[test]
fn a_wait_that_never_sees_the_signal_stays_parked() {
    assert_eq!(wake_ups_needed(&[]), None);
    assert_eq!(wake_ups_needed(&[0]), None);
    assert_eq!(wake_ups_needed(&[0, 0, 0, 0]), None);
}

#[test]
fn new_slot_is_empty() {
    let mut slot = FixedSlot::new(FixedInput::new(9, 9));
    assert!(!slot.is_pending());
    assert_eq!(slot.receive(), None);
    assert!(!slot.is_pending());
}

#[test]
fn slot_hands_over_one_payload() {
    let mut slot = FixedSlot::new(FixedInput::new(0, 0));
    assert_eq!(slot.send(FixedInput::new(1, 2)), Ok(()));
    assert!(slot.is_pending());
    assert_eq!(slot.receive(), Some(FixedInput::new(1, 2)));
    assert!(!slot.is_pending());
    assert_eq!(slot.receive(), None);
}

#[test]
fn second_send_is_refused_and_first_payload_survives() {
    let mut slot = FixedSlot::new(FixedInput::new(0, 0));
    assert_eq!(slot.send(FixedInput::new(1, 2)), Ok(()));
    assert_eq!(
        slot.send(FixedInput::new(3, 4)),
        Err(ProtocolError::ChannelBusy)
    );
    assert!(slot.is_pending());
    assert_eq!(slot.receive(), Some(FixedInput::new(1, 2)));
    assert_eq!(slot.send(FixedInput::new(3, 4)), Ok(()));
    assert_eq!(slot.receive(), Some(FixedInput::new(3, 4)));
}

#[test]
fn many_round_trips_are_bit_exact() {
    let mut requests = FixedSlot::new(FixedInput::new(0, 0));
    let mut responses = FixedSlot::new(Response::Failed);
    let mut seed: u32 = 0x9e37_79b9;
    for _ in 0..1000 {
        seed = seed.wrapping_mul(1_103_515_245).wrapping_add(12_345);
        let a = seed;
        seed = seed.wrapping_mul(1_103_515_245).wrapping_add(12_345);
        let b = seed;
        let input = FixedInput::new(a, b);
        assert_eq!(requests.send(input), Ok(()));
        assert_eq!(requests.receive(), Some(input));
        let response = Response::Completed(FixedOutput::new(a.rotate_left(7) ^ b));
        assert_eq!(responses.send(response), Ok(()));
        assert_eq!(responses.receive(), Some(response));
        assert!(!requests.is_pending());
        assert!(!responses.is_pending());
    }
}

#[test]
fn gate_is_raised_once() {
    let mut gate = ReadinessGate::new();
    assert!(!gate.is_raised());
    assert!(gate.raise());
    assert!(gate.is_raised());
    assert!(!gate.raise());
    assert!(gate.is_raised());
}

#[test]
fn signal_value_ends_a_wait() {
    assert_eq!(signal_value(), 1);
    assert_eq!(after_wake(signal_value()), WaitStep::Proceed);
}
