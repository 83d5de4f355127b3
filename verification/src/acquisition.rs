use crate::channel::{SampleChannel, SendOutcome};
use vstd::prelude::*;

verus! {

/// Result of the one calibrated blocking ADC read of a tick, as the hardware
/// driver reported it. The read itself happens outside; its outcome is
/// injected here.
#[derive(Clone, Copy, Debug, PartialEq, Eq, Structural)]
pub enum AdcReading {
    /// The driver returned a sample.
    Sample(u16),
    /// The driver returned an error: fatal for this run of the worker,
    /// no internal retry.
    Failed,
}

/// Why a run of the acquisition loop ended.
#[derive(Clone, Copy, Debug, PartialEq, Eq, Structural)]
pub enum StopCause {
    /// The lifecycle manager requested cancellation; observed at the top of
    /// the tick, so at most one sampling period after the request.
    Cancelled,
    /// The consumer endpoint is gone: a quiet stop signal, not an error.
    ConsumerGone,
    /// The ADC read failed: the error is surfaced to the worker's caller.
    ReadFailed,
}

/// What one tick of the acquisition loop did.
#[derive(Clone, Copy, Debug, PartialEq, Eq, Structural)]
pub enum TickResult {
    /// The sample was enqueued; the loop sleeps one period and ticks again.
    Proceed,
    /// Every slot is occupied: backpressure; the producer waits and retries,
    /// nothing was dropped.
    Blocked,
    /// This run of the worker is over.
    Stopped(StopCause),
}

/// The tick decision as a function of what the tick observed: the
/// cancellation flag polled at the top, the injected read outcome, and the
/// channel's consumer/fullness status.
pub open spec fn spec_tick_result(
    cancel_requested: bool,
    reading: AdcReading,
    receiver_live: bool,
    full: bool,
) -> TickResult {
    if cancel_requested {
        TickResult::Stopped(StopCause::Cancelled)
    } else if reading == AdcReading::Failed {
        TickResult::Stopped(StopCause::ReadFailed)
    } else if !receiver_live {
        TickResult::Stopped(StopCause::ConsumerGone)
    } else if full {
        TickResult::Blocked
    } else {
        TickResult::Proceed
    }
}

/// Whether the tick hands a sample to the channel.
pub open spec fn tick_emits(
    cancel_requested: bool,
    reading: AdcReading,
    receiver_live: bool,
    full: bool,
) -> bool {
    spec_tick_result(cancel_requested, reading, receiver_live, full) == TickResult::Proceed
}

/// One tick of the acquisition loop, taken after the fixed sampling delay:
/// poll the cancellation flag; if it is clear, judge the read outcome and
/// hand a successful sample to the channel. The delay and the hardware read
/// themselves are the caller's; their outcome is this function's input.
pub fn acquisition_tick(cancel_requested: bool, reading: AdcReading, ch: &mut SampleChannel) -> (r:
    TickResult)
    requires
        old(ch).well_formed(),
    ensures
        final(ch).well_formed(),
        final(ch).capacity() == old(ch).capacity(),
        final(ch).sender_live() == old(ch).sender_live(),
        final(ch).receiver_live() == old(ch).receiver_live(),
        final(ch).received_log() == old(ch).received_log(),
        r == spec_tick_result(
            cancel_requested,
            reading,
            old(ch).receiver_live(),
            old(ch).is_full(),
        ),
        r == TickResult::Proceed ==> (match reading {
            AdcReading::Sample(v) => {
                &&& final(ch).buffered() == old(ch).buffered().push(v)
                &&& final(ch).sent_log() == old(ch).sent_log().push(v)
            },
            AdcReading::Failed => false,
        }),
        r != TickResult::Proceed ==> final(ch).same_state(*old(ch)),
{
    if cancel_requested {
        return TickResult::Stopped(StopCause::Cancelled);
    }
    match reading {
        AdcReading::Failed => TickResult::Stopped(StopCause::ReadFailed),
        AdcReading::Sample(v) => {
            match ch.send(v) {
                SendOutcome::Sent => TickResult::Proceed,
                SendOutcome::WouldBlock => TickResult::Blocked,
                SendOutcome::ReceiverGone => TickResult::Stopped(StopCause::ConsumerGone),
            }
        },
    }
}

/// Fatal-read propagation law: with cancellation clear, a failed read stops
/// only this run of the worker — the tick reports `ReadFailed`, emits
/// nothing, and (by `acquisition_tick`'s contract) leaves the channel
/// untouched, so the consumer side is unaffected.
pub proof fn lemma_fatal_read_stops_worker(receiver_live: bool, full: bool)
    ensures
        spec_tick_result(false, AdcReading::Failed, receiver_live, full) == TickResult::Stopped(
            StopCause::ReadFailed,
        ),
        !tick_emits(false, AdcReading::Failed, receiver_live, full),
{
}

/// Cancellation wins over everything a tick could observe: once the flag is
/// set, the tick emits no sample and stops, whatever the read returned and
/// whatever state the channel is in.
pub proof fn lemma_cancel_stops_tick(reading: AdcReading, receiver_live: bool, full: bool)
    ensures
        spec_tick_result(true, reading, receiver_live, full) == TickResult::Stopped(
            StopCause::Cancelled,
        ),
        !tick_emits(true, reading, receiver_live, full),
{
}

} // verus!
