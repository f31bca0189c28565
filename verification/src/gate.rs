//! The readiness gate: a doorbell that is rung once and never taken back.

use vstd::prelude::*;
use crate::doorbell::Doorbell;

verus! {

/// The one-shot signal that the backend is up. Its view is whether it has
/// been raised. Nothing lowers a raised gate.
pub struct ReadinessGate {
    bell: Doorbell,
}

impl View for ReadinessGate {
    type V = bool;

    closed spec fn view(&self) -> bool {
        self.bell@
    }
}

impl ReadinessGate {
    /// A gate that has not been raised.
    pub fn new() -> (gate: Self)
        ensures
            !gate@,
    {
        ReadinessGate { bell: Doorbell::new() }
    }

    /// Raises the readiness gate. Says whether this call was the one that raised it.
    pub fn raise(&mut self) -> (first: bool)
        ensures
            final(self)@,
            first == !old(self)@,
        no_unwind
    {
        if self.bell.is_signaled() {
            false
        } else {
            self.bell.signal();
            true
        }
    }

    pub fn is_raised(&self) -> (raised: bool)
        ensures
            raised == self@,
        no_unwind
    {
        self.bell.is_signaled()
    }
}

} // verus!
