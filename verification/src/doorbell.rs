//! The doorbell: a binary signal in one integer cell.
//!
//! One party signals; the other waits. A waiter never trusts the wake-up
//! itself: after every wake-up it reads the cell again and goes back to
//! waiting unless the cell really left the idle value. That makes a wake-up
//! with nobody waiting, and a wake-up with nothing signalled, both harmless.

use vstd::prelude::*;

verus! {

/// The cell's value while nothing has been signalled.
pub const IDLE: u32 = 0;

/// The cell's value once the signal is raised.
pub const SIGNALED: u32 = 1;

/// What a waiter does after reading the cell.
#[derive(Clone, Copy, Debug, PartialEq, Eq, Structural)]
pub enum WaitStep {
    /// The signal is there: the wait is over.
    Proceed,
    /// The cell is idle: block until it changes, then read it again.
    Park,
}

/// What a waiter does with the value it read from the cell: any value but
/// the idle one ends the wait.
pub open spec fn decision(observed: u32) -> WaitStep {
    if observed == IDLE {
        WaitStep::Park
    } else {
        WaitStep::Proceed
    }
}

/// No observation before `upto` ended the wait.
pub open spec fn all_idle(seen: Seq<u32>, upto: int) -> bool {
    forall|i: int| 0 <= i < upto ==> seen[i] == IDLE
}

/// Decides one turn of a wait from the value just read.
pub fn after_wake(observed: u32) -> (step: WaitStep)
    ensures
        step == decision(observed),
    no_unwind
{
    if observed == IDLE {
        WaitStep::Park
    } else {
        WaitStep::Proceed
    }
}

/// The value a signaller stores in the cell. It ends the wait of whoever
/// reads it.
pub fn signal_value() -> (value: u32)
    ensures
        value == SIGNALED,
        decision(value) == WaitStep::Proceed,
{
    SIGNALED
}

/// Runs a whole wait over the values a waiter reads, one per wake-up, and
/// says at which read the wait ends. Wake-ups that found the cell idle are
/// skipped; if every read found it idle the waiter is still parked.
pub fn wake_ups_needed(seen: &[u32]) -> (at: Option<usize>)
    ensures
        match at {
            Some(index) => index < seen@.len() && seen@[index as int] != IDLE && all_idle(
                seen@,
                index as int,
            ),
            None => all_idle(seen@, seen@.len() as int),
        },
{
    let mut index: usize = 0;
    while index < seen.len()
        invariant
            index <= seen@.len(),
            all_idle(seen@, index as int),
        decreases seen@.len() - index,
    {
        match after_wake(seen[index]) {
            WaitStep::Proceed => {
                return Some(index);
            },
            WaitStep::Park => {},
        }
        index = index + 1;
    }
    None
}

/// A doorbell. Its view is whether the signal is raised.
pub struct Doorbell {
    cell: u32,
}

impl View for Doorbell {
    type V = bool;

    closed spec fn view(&self) -> bool {
        self.cell == SIGNALED
    }
}

impl Doorbell {
    #[verifier::type_invariant]
    spec fn cell_is_binary(self) -> bool {
        self.cell == IDLE || self.cell == SIGNALED
    }

    /// The value the cell holds.
    pub open spec fn value(self) -> u32 {
        if self@ {
            SIGNALED
        } else {
            IDLE
        }
    }

    /// A doorbell that has not been signalled.
    pub fn new() -> (bell: Self)
        ensures
            !bell@,
    {
        Doorbell { cell: IDLE }
    }

    /// Raises the signal. Signalling a raised doorbell changes nothing.
    pub fn signal(&mut self)
        ensures
            final(self)@,
        no_unwind
    {
        self.cell = SIGNALED;
    }

    /// Takes the signal back, arming the doorbell for the next cycle. Only
    /// the party that is about to wait on it again may do this.
    pub fn reset(&mut self)
        ensures
            !final(self)@,
        no_unwind
    {
        self.cell = IDLE;
    }

    /// Reads the cell.
    pub fn load(&self) -> (value: u32)
        ensures
            value == self.value(),
    {
        proof {
            use_type_invariant(self);
        }
        self.cell
    }

    pub fn is_signaled(&self) -> (signaled: bool)
        ensures
            signaled == self@,
        no_unwind
    {
        self.cell == SIGNALED
    }

    /// One turn of waiting for the signal: reads the cell and says whether
    /// the waiter may go on. On a raised doorbell the answer is to go on at
    /// once, without parking.
    pub fn wait_until_signaled(&self) -> (step: WaitStep)
        ensures
            step == decision(self.value()),
            self@ <==> step == WaitStep::Proceed,
    {
        after_wake(self.load())
    }
}

/// Signalling and then waiting does not block. `signal` leaves the doorbell
/// raised whatever it held before, and on a raised doorbell the wait reads
/// the signal at its first turn.
pub proof fn law_signal_then_wait_proceeds(signaled: Doorbell)
    requires
        signaled@,
    ensures
        signaled.value() == SIGNALED,
        decision(signaled.value()) == WaitStep::Proceed,
{
}

} // verus!
