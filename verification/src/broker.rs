//! The request broker's own bookkeeping.
//!
//! A broker remembers two things: whether it has seen the readiness gate
//! raised, and whether a request of its own is still outstanding. From
//! those, and from what the channels answer, it decides what a caller is
//! told. The broker never retries and never queues.

use vstd::prelude::*;
use crate::doorbell::{WaitStep, after_wake, decision};
use crate::error::ProtocolError;
use crate::payload::{FixedOutput, Response};

verus! {

/// How an attempt to put a payload on a channel ended.
#[derive(Clone, Copy, Debug, PartialEq, Eq, Structural)]
pub enum SendOutcome {
    /// The payload is on the channel.
    Delivered,
    /// The channel still holds an earlier payload.
    Full,
    /// Nobody is left to receive.
    Disconnected,
}

/// How an attempt to take a payload from a channel ended.
#[derive(Debug)]
pub enum RecvOutcome<T> {
    /// A payload was taken.
    Arrived(T),
    /// Nothing is on the channel yet.
    Empty,
    /// Nothing is on the channel and nobody is left to send.
    Disconnected,
}

/// What a broker knows between calls.
#[derive(Clone, Copy, Debug, PartialEq, Eq, Structural)]
pub struct Broker {
    /// The readiness gate has been seen raised.
    pub ready_seen: bool,
    /// A request has been sent and its response has not been drained.
    pub awaiting: bool,
}

/// What the caller is told for a response taken from the channel.
pub open spec fn reply_result(response: Response) -> Result<FixedOutput, ProtocolError> {
    match response {
        Response::Completed(output) => Ok(output),
        Response::Failed => Err(ProtocolError::BackendExecFailed),
    }
}

/// What the caller is told for a send attempt.
pub open spec fn send_verdict(outcome: SendOutcome) -> Result<(), ProtocolError> {
    match outcome {
        SendOutcome::Delivered => Ok(()),
        SendOutcome::Full => Err(ProtocolError::ChannelBusy),
        SendOutcome::Disconnected => Err(ProtocolError::PeerDisconnected),
    }
}

/// What the caller is told for a receive attempt; `None` while the response
/// is still to come.
pub open spec fn recv_verdict(outcome: RecvOutcome<Response>) -> Option<
    Result<FixedOutput, ProtocolError>,
> {
    match outcome {
        RecvOutcome::Arrived(response) => Some(reply_result(response)),
        RecvOutcome::Empty => None,
        RecvOutcome::Disconnected => Some(Err(ProtocolError::PeerDisconnected)),
    }
}

/// Whether a look at the readiness gate found it raised. It is a
/// doorbell: only a value that ends a wait on a doorbell counts, and an
/// empty or abandoned gate does not.
pub open spec fn shows_ready(look: RecvOutcome<u32>) -> bool {
    match look {
        RecvOutcome::Arrived(value) => decision(value) == WaitStep::Proceed,
        _ => false,
    }
}

/// Reads what a look at the readiness gate showed.
pub fn gate_shows_ready(look: RecvOutcome<u32>) -> (raised: bool)
    ensures
        raised == shows_ready(look),
    no_unwind
{
    match look {
        RecvOutcome::Arrived(value) => match after_wake(value) {
            WaitStep::Proceed => true,
            WaitStep::Park => false,
        },
        _ => false,
    }
}

impl Broker {
    /// Whether the broker may send a request now, and if not, why.
    pub open spec fn admission(self) -> Result<(), ProtocolError> {
        if !self.ready_seen {
            Err(ProtocolError::NotReady)
        } else if self.awaiting {
            Err(ProtocolError::ChannelBusy)
        } else {
            Ok(())
        }
    }

    /// The broker after it looked at the readiness gate.
    pub open spec fn having_observed(self, raised: bool) -> Broker {
        Broker { ready_seen: self.ready_seen || raised, awaiting: self.awaiting }
    }

    /// The broker after a send attempt ended with `outcome`.
    pub open spec fn having_sent(self, outcome: SendOutcome) -> Broker {
        Broker { ready_seen: self.ready_seen, awaiting: self.awaiting || outcome == SendOutcome::Delivered }
    }

    /// The broker after a receive attempt ended with `outcome`.
    pub open spec fn having_received(self, outcome: RecvOutcome<Response>) -> Broker {
        Broker { ready_seen: self.ready_seen, awaiting: self.awaiting && outcome is Empty }
    }

    /// What sending a request comes to: the broker afterwards and what the
    /// caller is told, given whether the readiness gate showed raised and
    /// how the request channel answered. The channel is asked only once
    /// the broker's own rules let the request through.
    pub open spec fn submitting(self, raised: bool, sent: SendOutcome) -> (
        Broker,
        Result<(), ProtocolError>,
    ) {
        let seen = self.having_observed(raised);
        match seen.admission() {
            Err(refusal) => (seen, Err(refusal)),
            Ok(_) => (seen.having_sent(sent), send_verdict(sent)),
        }
    }

    /// What one turn of receiving the response comes to, given how the
    /// response channel answered.
    pub open spec fn collecting(self, reply: RecvOutcome<Response>) -> (
        Broker,
        Option<Result<FixedOutput, ProtocolError>>,
    ) {
        (self.having_received(reply), recv_verdict(reply))
    }

    /// What a whole call comes to, given whether the readiness gate showed
    /// raised and how the two channels answered. The response channel is
    /// waited on only after the request was delivered, and a wait never
    /// ends on an empty channel.
    pub open spec fn calling(self, raised: bool, sent: SendOutcome, reply: RecvOutcome<Response>) -> (
        Broker,
        Result<FixedOutput, ProtocolError>,
    ) {
        let (waiting, verdict) = self.submitting(raised, sent);
        match verdict {
            Err(refusal) => (waiting, Err(refusal)),
            Ok(_) => (
                waiting.having_received(reply),
                match reply {
                    RecvOutcome::Arrived(response) => reply_result(response),
                    _ => Err(ProtocolError::PeerDisconnected),
                },
            ),
        }
    }

    /// A broker that has seen nothing and sent nothing.
    pub fn new() -> (broker: Self)
        ensures
            broker == (Broker { ready_seen: false, awaiting: false }),
    {
        Broker { ready_seen: false, awaiting: false }
    }

    /// Notes what a look at the readiness gate showed. A gate once seen
    /// raised stays seen.
    pub fn observe_gate(&mut self, raised: bool)
        ensures
            *final(self) == old(self).having_observed(raised),
        no_unwind
    {
        if raised {
            self.ready_seen = true;
        }
    }

    /// Decides whether a request may be sent: not before the readiness gate was seen
    /// raised, and not while an earlier request is outstanding.
    pub fn may_send(&self) -> (admitted: Result<(), ProtocolError>)
        ensures
            admitted == self.admission(),
        no_unwind
    {
        if !self.ready_seen {
            Err(ProtocolError::NotReady)
        } else if self.awaiting {
            Err(ProtocolError::ChannelBusy)
        } else {
            Ok(())
        }
    }

    /// Notes how the send of a request ended and says what the caller is
    /// told. Only a delivered request is outstanding afterwards.
    pub fn record_send(&mut self, outcome: SendOutcome) -> (verdict: Result<(), ProtocolError>)
        ensures
            verdict == send_verdict(outcome),
            *final(self) == old(self).having_sent(outcome),
        no_unwind
    {
        match outcome {
            SendOutcome::Delivered => {
                self.awaiting = true;
                Ok(())
            },
            SendOutcome::Full => Err(ProtocolError::ChannelBusy),
            SendOutcome::Disconnected => Err(ProtocolError::PeerDisconnected),
        }
    }

    /// Notes how a receive on the response channel ended and says what the
    /// caller is told. A response, or the news that none will come, drains
    /// the outstanding request; an empty channel leaves it outstanding.
    pub fn record_reply(&mut self, outcome: RecvOutcome<Response>) -> (verdict: Option<
        Result<FixedOutput, ProtocolError>,
    >)
        ensures
            verdict == recv_verdict(outcome),
            *final(self) == old(self).having_received(outcome),
        no_unwind
    {
        match outcome {
            RecvOutcome::Arrived(response) => {
                self.awaiting = false;
                match response {
                    Response::Completed(output) => Some(Ok(output)),
                    Response::Failed => Some(Err(ProtocolError::BackendExecFailed)),
                }
            },
            RecvOutcome::Empty => None,
            RecvOutcome::Disconnected => {
                self.awaiting = false;
                Some(Err(ProtocolError::PeerDisconnected))
            },
        }
    }
}

} // verus!
