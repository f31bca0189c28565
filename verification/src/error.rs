//! The failures a caller or a worker can be handed.

use vstd::prelude::*;

verus! {

/// Every way a hand-off can fail.
#[derive(Clone, Copy, Debug, PartialEq, Eq, Structural)]
pub enum ProtocolError {
    /// A request was issued before the readiness gate was seen raised.
    NotReady,
    /// A request was issued while an earlier one had not been drained.
    ChannelBusy,
    /// The backend could not be initialised; the readiness gate will never be raised.
    BackendInitFailed,
    /// The backend failed on one request; later requests are unaffected.
    BackendExecFailed,
    /// The other side of the session is gone.
    PeerDisconnected,
}

impl ProtocolError {
    /// Whether the failure leaves the session unusable for good.
    pub open spec fn ends_session(self) -> bool {
        self == ProtocolError::BackendInitFailed || self == ProtocolError::PeerDisconnected
    }

    /// Whether a later request on the same session can still succeed.
    pub fn is_recoverable(&self) -> (r: bool)
        ensures
            r == !self.ends_session(),
    {
        match self {
            ProtocolError::NotReady => true,
            ProtocolError::ChannelBusy => true,
            ProtocolError::BackendExecFailed => true,
            ProtocolError::BackendInitFailed => false,
            ProtocolError::PeerDisconnected => false,
        }
    }
}

} // verus!
