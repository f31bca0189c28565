//! The fixed-slot channel built from a payload cell and a doorbell.
//!
//! The sender writes the payload and only then rings; the receiver reads the
//! payload only after it has seen the ring, and takes the ring back as it
//! does. The slot holds at most one payload: a second `send` before the
//! first payload is consumed is refused and leaves the first in place.

use vstd::prelude::*;
use crate::doorbell::Doorbell;
use crate::error::ProtocolError;

verus! {

/// A one-payload mailbox. Its view is the payload in flight, if any.
pub struct FixedSlot<T> {
    cell: T,
    bell: Doorbell,
}

impl<T> View for FixedSlot<T> {
    type V = Option<T>;

    closed spec fn view(&self) -> Option<T> {
        if self.bell@ {
            Some(self.cell)
        } else {
            None
        }
    }
}

/// What a slot holding `pending` holds after a `send` of `payload`.
pub open spec fn after_send<T>(pending: Option<T>, payload: T) -> Option<T> {
    match pending {
        Some(_) => pending,
        None => Some(payload),
    }
}

/// What a `send` into a slot holding `pending` returns.
pub open spec fn send_result<T>(pending: Option<T>) -> Result<(), ProtocolError> {
    match pending {
        Some(_) => Err(ProtocolError::ChannelBusy),
        None => Ok(()),
    }
}

/// What the receiver has read after sending and receiving each of
/// `payloads` in turn through a slot that starts out holding `pending`.
pub open spec fn relayed<T>(pending: Option<T>, payloads: Seq<T>) -> Seq<Option<T>>
    decreases payloads.len(),
{
    if payloads.len() == 0 {
        Seq::empty()
    } else {
        seq![after_send(pending, payloads[0])] + relayed(None, payloads.drop_first())
    }
}

impl<T: Copy> FixedSlot<T> {
    /// An empty slot. `blank` is what the payload cell holds before the
    /// first `send`; no `receive` ever returns it.
    pub fn new(blank: T) -> (slot: Self)
        ensures
            slot@ is None,
    {
        FixedSlot { cell: blank, bell: Doorbell::new() }
    }

    /// Whether a payload is in flight.
    pub fn is_pending(&self) -> (pending: bool)
        ensures
            pending == self@ is Some,
        no_unwind
    {
        self.bell.is_signaled()
    }

    /// Stores `payload` and rings. Refused with `ChannelBusy`, and without
    /// touching the slot, while an earlier payload has not been consumed.
    pub fn send(&mut self, payload: T) -> (sent: Result<(), ProtocolError>)
        ensures
            sent == send_result(old(self)@),
            final(self)@ == after_send(old(self)@, payload),
        no_unwind
    {
        if self.bell.is_signaled() {
            Err(ProtocolError::ChannelBusy)
        } else {
            self.cell = payload;
            self.bell.signal();
            Ok(())
        }
    }

    /// One turn of a receive: if the doorbell has rung, takes the payload
    /// and arms the slot for the next cycle; if not, returns nothing and the
    /// receiver has to wait.
    pub fn receive(&mut self) -> (payload: Option<T>)
        ensures
            payload == old(self)@,
            final(self)@ is None,
        no_unwind
    {
        if self.bell.is_signaled() {
            let payload = self.cell;
            self.bell.reset();
            Some(payload)
        } else {
            None
        }
    }
}

/// After any number of send-then-receive cycles through a slot that starts
/// empty, the receiver has read exactly the payloads the sender wrote, in
/// order, each one whole.
pub proof fn law_round_trips_are_exact<T>(payloads: Seq<T>)
    ensures
        relayed(None, payloads) == payloads.map_values(|payload: T| Some(payload)),
    decreases payloads.len(),
{
    let wanted = payloads.map_values(|payload: T| Some(payload));
    if payloads.len() > 0 {
        law_round_trips_are_exact(payloads.drop_first());
        let rest = payloads.drop_first().map_values(|payload: T| Some(payload));
        assert(relayed(None, payloads) =~= seq![Some(payloads[0])] + rest);
        assert(wanted =~= seq![Some(payloads[0])] + rest);
    } else {
        assert(relayed(None::<T>, payloads) =~= wanted);
    }
}

/// A payload in flight is never overwritten: sending again before the
/// receive is refused and the receiver still reads the first payload.
pub proof fn law_pending_payload_survives<T>(first: T, second: T)
    ensures
        send_result(after_send(None, first)) == Err::<(), _>(ProtocolError::ChannelBusy),
        after_send(after_send(None, first), second) == Some(first),
{
}

} // verus!
