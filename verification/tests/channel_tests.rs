use sampling_core::channel::{RecvOutcome, SampleChannel, SendOutcome};
use sampling_core::codec::sample_to_le_bytes;
use sampling_core::config::CHANNEL_CAPACITY;
use sampling_core::pump::{pump_tick, PumpStep};

#[test]
fn fifo_order_is_preserved() {
    let mut ch = SampleChannel::new(CHANNEL_CAPACITY);
    let produced: Vec<u16> = vec![7, 1, 500, 0, 65535, 42];
    for v in &produced {
        assert_eq!(ch.send(*v), SendOutcome::Sent);
    }
    let mut observed: Vec<u16> = Vec::new();
    loop {
        match ch.receive() {
            RecvOutcome::Received(v) => observed.push(v),
            _ => break,
        }
    }
    assert_eq!(observed, produced);
}

#[test]
fn full_channel_blocks_producer_without_loss() {
    let mut ch = SampleChannel::new(CHANNEL_CAPACITY);
    for v in 0..CHANNEL_CAPACITY as u16 {
        assert_eq!(ch.send(v), SendOutcome::Sent);
    }
    // A stalled consumer throttles the producer; the overflowing sample is
    // not dropped, the send just has to wait.
    assert_eq!(ch.send(999), SendOutcome::WouldBlock);
    assert_eq!(ch.send(999), SendOutcome::WouldBlock);
    assert_eq!(ch.buffered_len(), CHANNEL_CAPACITY);
    // Once the consumer resumes, every buffered value arrives in order.
    for v in 0..CHANNEL_CAPACITY as u16 {
        assert_eq!(ch.receive(), RecvOutcome::Received(v));
    }
    // And the producer can proceed again.
    assert_eq!(ch.send(999), SendOutcome::Sent);
    assert_eq!(ch.receive(), RecvOutcome::Received(999));
}

#[test]
fn drain_delivers_everything_buffered() {
    let mut ch = SampleChannel::new(CHANNEL_CAPACITY);
    for v in [10u16, 20, 30] {
        assert_eq!(ch.send(v), SendOutcome::Sent);
    }
    assert_eq!(ch.drain(), vec![10, 20, 30]);
    assert_eq!(ch.buffered_len(), 0);
}

#[test]
fn empty_channel_makes_consumer_wait() {
    let mut ch = SampleChannel::new(CHANNEL_CAPACITY);
    assert_eq!(ch.receive(), RecvOutcome::WouldBlock);
}

#[test]
fn consumer_gone_is_reported_to_producer() {
    let mut ch = SampleChannel::new(CHANNEL_CAPACITY);
    ch.detach_receiver();
    assert_eq!(ch.send(5), SendOutcome::ReceiverGone);
    assert_eq!(ch.buffered_len(), 0);
}

#[test]
fn producer_gone_still_delivers_buffered_samples() {
    let mut ch = SampleChannel::new(CHANNEL_CAPACITY);
    assert_eq!(ch.send(11), SendOutcome::Sent);
    assert_eq!(ch.send(22), SendOutcome::Sent);
    ch.detach_sender();
    assert_eq!(ch.receive(), RecvOutcome::Received(11));
    assert_eq!(ch.receive(), RecvOutcome::Received(22));
    assert_eq!(ch.receive(), RecvOutcome::SenderGone);
}

#[test]
fn sample_serializes_little_endian() {
    assert_eq!(sample_to_le_bytes(0x1234), vec![0x34, 0x12]);
}

#[test]
fn serialization_edge_values() {
    assert_eq!(sample_to_le_bytes(0), vec![0x00, 0x00]);
    assert_eq!(sample_to_le_bytes(0xFFFF), vec![0xFF, 0xFF]);
    assert_eq!(sample_to_le_bytes(1), vec![0x01, 0x00]);
    assert_eq!(sample_to_le_bytes(0x0100), vec![0x00, 0x01]);
}

#[test]
fn pump_delivers_oldest_sample_with_payload() {
    let mut ch = SampleChannel::new(CHANNEL_CAPACITY);
    assert_eq!(ch.send(0x1234), SendOutcome::Sent);
    assert_eq!(ch.send(2), SendOutcome::Sent);
    let (step, payload) = pump_tick(&mut ch);
    assert_eq!(step, PumpStep::Delivered(0x1234));
    assert_eq!(payload, vec![0x34, 0x12]);
    let (step, payload) = pump_tick(&mut ch);
    assert_eq!(step, PumpStep::Delivered(2));
    assert_eq!(payload, vec![0x02, 0x00]);
}

#[test]
fn pump_waits_on_empty_channel_and_stops_without_producer() {
    let mut ch = SampleChannel::new(CHANNEL_CAPACITY);
    let (step, payload) = pump_tick(&mut ch);
    assert_eq!(step, PumpStep::Waiting);
    assert!(payload.is_empty());
    ch.detach_sender();
    let (step, _) = pump_tick(&mut ch);
    assert_eq!(step, PumpStep::ProducerGone);
}
