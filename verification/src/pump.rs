use crate::channel::{RecvOutcome, SampleChannel};
use crate::codec;
use vstd::prelude::*;

verus! {

/// What one tick of the notification pump did.
#[derive(Clone, Copy, Debug, PartialEq, Eq, Structural)]
pub enum PumpStep {
    /// The oldest buffered sample was dequeued and serialized; the caller
    /// pushes the payload to the subscribed peers.
    Delivered(u16),
    /// Nothing buffered yet: the pump waits for the producer; receipt is
    /// bounded by the production rate.
    Waiting,
    /// Nothing buffered and no producer remains reachable.
    ProducerGone,
}

/// One tick of the notification pump, taken on its fixed cadence inside the
/// primary control loop: dequeue the oldest sample and serialize it into the
/// notify characteristic's value, two bytes little-endian. The notification
/// push itself is the caller's; on a `Delivered` step it writes the returned
/// payload and notifies.
pub fn pump_tick(ch: &mut SampleChannel) -> (r: (PumpStep, Vec<u8>))
    requires
        old(ch).well_formed(),
    ensures
        final(ch).well_formed(),
        final(ch).capacity() == old(ch).capacity(),
        final(ch).sender_live() == old(ch).sender_live(),
        final(ch).receiver_live() == old(ch).receiver_live(),
        final(ch).sent_log() == old(ch).sent_log(),
        old(ch).buffered().len() > 0 ==> {
            &&& r.0 == PumpStep::Delivered(old(ch).buffered()[0])
            &&& r.1@ == codec::le_bytes_of(old(ch).buffered()[0])
            &&& final(ch).buffered() == old(ch).buffered().drop_first()
            &&& final(ch).received_log() == old(ch).received_log().push(old(ch).buffered()[0])
        },
        old(ch).buffered().len() == 0 ==> final(ch).same_state(*old(ch)) && r.1@.len() == 0,
        (old(ch).buffered().len() == 0 && old(ch).sender_live()) ==> r.0 == PumpStep::Waiting,
        (old(ch).buffered().len() == 0 && !old(ch).sender_live()) ==> r.0 == PumpStep::ProducerGone,
{
    match ch.receive() {
        RecvOutcome::Received(v) => (PumpStep::Delivered(v), codec::sample_to_le_bytes(v)),
        RecvOutcome::WouldBlock => (PumpStep::Waiting, Vec::new()),
        RecvOutcome::SenderGone => (PumpStep::ProducerGone, Vec::new()),
    }
}

} // verus!
