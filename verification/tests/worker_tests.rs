use sampling_core::acquisition::{acquisition_tick, AdcReading, StopCause, TickResult};
use sampling_core::channel::{SampleChannel, SendOutcome};
use sampling_core::config::CHANNEL_CAPACITY;
use sampling_core::lifecycle::{LifecycleAction, LifecycleManager, LifecycleState};
use sampling_core::pump::{pump_tick, PumpStep};

#[test]
fn bonded_subscribe_starts_one_worker() {
    let mut m = LifecycleManager::new();
    assert_eq!(m.on_subscribe(true), LifecycleAction::SpawnWorker);
    assert_eq!(m.state, LifecycleState::Running);
    assert!(m.worker_live);
    assert!(!m.cancel_requested);
}

#[test]
fn second_subscribe_does_not_start_a_second_worker() {
    let mut m = LifecycleManager::new();
    assert_eq!(m.on_subscribe(true), LifecycleAction::SpawnWorker);
    // A second subscribe in quick succession, before any unsubscribe: no
    // second worker may touch the ADC.
    assert_eq!(m.on_subscribe(true), LifecycleAction::Ignored);
    assert_eq!(m.state, LifecycleState::Running);
}

#[test]
fn resubscribe_before_observed_exit_is_rejected() {
    let mut m = LifecycleManager::new();
    assert_eq!(m.on_subscribe(true), LifecycleAction::SpawnWorker);
    assert_eq!(m.on_unsubscribe(), LifecycleAction::SignalCancel);
    // The cancelled worker has not yet been seen to exit.
    assert_eq!(m.on_subscribe(true), LifecycleAction::RejectedBusy);
    m.on_worker_exit();
    assert_eq!(m.on_subscribe(true), LifecycleAction::SpawnWorker);
}

#[test]
fn unbonded_subscribe_is_ignored() {
    let mut m = LifecycleManager::new();
    assert_eq!(m.on_subscribe(false), LifecycleAction::Ignored);
    assert_eq!(m.state, LifecycleState::Idle);
    assert!(!m.worker_live);
}

#[test]
fn unsubscribe_sets_cancellation_flag() {
    let mut m = LifecycleManager::new();
    m.on_subscribe(true);
    assert_eq!(m.on_unsubscribe(), LifecycleAction::SignalCancel);
    assert_eq!(m.state, LifecycleState::Idle);
    assert!(m.cancel_requested);
}

#[test]
fn unsubscribe_while_idle_changes_nothing() {
    let mut m = LifecycleManager::new();
    assert_eq!(m.on_unsubscribe(), LifecycleAction::Ignored);
    assert_eq!(m.state, LifecycleState::Idle);
    assert!(!m.cancel_requested);
}

#[test]
fn cancelled_tick_sends_nothing_and_stops() {
    let mut ch = SampleChannel::new(CHANNEL_CAPACITY);
    let r = acquisition_tick(true, AdcReading::Sample(77), &mut ch);
    assert_eq!(r, TickResult::Stopped(StopCause::Cancelled));
    assert_eq!(ch.buffered_len(), 0);
}

#[test]
fn successful_tick_hands_sample_to_channel() {
    let mut ch = SampleChannel::new(CHANNEL_CAPACITY);
    let r = acquisition_tick(false, AdcReading::Sample(4660), &mut ch);
    assert_eq!(r, TickResult::Proceed);
    assert_eq!(ch.buffered_len(), 1);
    let (step, payload) = pump_tick(&mut ch);
    assert_eq!(step, PumpStep::Delivered(4660));
    assert_eq!(payload, vec![0x34, 0x12]);
}

#[test]
fn read_failure_stops_worker_but_not_pump() {
    let mut ch = SampleChannel::new(CHANNEL_CAPACITY);
    assert_eq!(ch.send(5), SendOutcome::Sent);
    // The injected hardware failure ends this run of the worker...
    let r = acquisition_tick(false, AdcReading::Failed, &mut ch);
    assert_eq!(r, TickResult::Stopped(StopCause::ReadFailed));
    // ...and the consumer side keeps going: what was produced still arrives.
    let (step, _) = pump_tick(&mut ch);
    assert_eq!(step, PumpStep::Delivered(5));
    let (step, _) = pump_tick(&mut ch);
    assert_eq!(step, PumpStep::Waiting);
}

#[test]
fn full_channel_blocks_tick_without_loss() {
    let mut ch = SampleChannel::new(CHANNEL_CAPACITY);
    for v in 0..CHANNEL_CAPACITY as u16 {
        assert_eq!(acquisition_tick(false, AdcReading::Sample(v), &mut ch), TickResult::Proceed);
    }
    let r = acquisition_tick(false, AdcReading::Sample(1000), &mut ch);
    assert_eq!(r, TickResult::Blocked);
    assert_eq!(ch.buffered_len(), CHANNEL_CAPACITY);
}

#[test]
fn tick_stops_quietly_when_consumer_is_gone() {
    let mut ch = SampleChannel::new(CHANNEL_CAPACITY);
    ch.detach_receiver();
    let r = acquisition_tick(false, AdcReading::Sample(3), &mut ch);
    assert_eq!(r, TickResult::Stopped(StopCause::ConsumerGone));
    assert_eq!(ch.buffered_len(), 0);
}

#[test]
fn full_run_streams_samples_in_order() {
    // A whole subscribe-to-unsubscribe run, worker and pump interleaved.
    let mut m = LifecycleManager::new();
    let mut ch = SampleChannel::new(CHANNEL_CAPACITY);
    assert_eq!(m.on_subscribe(true), LifecycleAction::SpawnWorker);
    let produced: Vec<u16> = vec![100, 200, 300, 400];
    let mut delivered: Vec<u16> = Vec::new();
    for v in &produced {
        let r = acquisition_tick(m.cancel_requested, AdcReading::Sample(*v), &mut ch);
        assert_eq!(r, TickResult::Proceed);
        if let (PumpStep::Delivered(s), _) = pump_tick(&mut ch) {
            delivered.push(s);
        }
    }
    assert_eq!(m.on_unsubscribe(), LifecycleAction::SignalCancel);
    // The very next tick observes the flag: no sample later than one period.
    let r = acquisition_tick(m.cancel_requested, AdcReading::Sample(500), &mut ch);
    assert_eq!(r, TickResult::Stopped(StopCause::Cancelled));
    m.on_worker_exit();
    assert_eq!(delivered, produced);
    assert_eq!(ch.buffered_len(), 0);
}
