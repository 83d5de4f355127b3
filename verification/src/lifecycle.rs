use crate::acquisition::{spec_tick_result, tick_emits, AdcReading, StopCause, TickResult};
use vstd::prelude::*;

verus! {

/// States of the sampling lifecycle.
#[derive(Clone, Copy, Debug, PartialEq, Eq, Structural)]
pub enum LifecycleState {
    /// No sampling requested; no worker should be producing.
    Idle,
    /// A subscribed, bonded peer is being served by one acquisition worker.
    Running,
}

/// What the caller must do after a lifecycle transition.
#[derive(Clone, Copy, Debug, PartialEq, Eq, Structural)]
pub enum LifecycleAction {
    /// Spawn one acquisition worker pinned to the secondary core, handing it
    /// the ADC guard and the sender endpoint.
    SpawnWorker,
    /// The cancellation flag was set; the running worker observes it within
    /// one sampling period and exits.
    SignalCancel,
    /// A previous worker has not yet been observed to exit: the start is
    /// refused, preserving the single-worker guarantee.
    RejectedBusy,
    /// Nothing to do (unbonded peer, or the event does not apply in the
    /// current state); worth a log line, nothing else.
    Ignored,
}

/// Serialized state machine that reacts to subscription events from the BLE
/// surface and governs the acquisition worker: at most one worker is ever
/// told to start, and it is stopped cooperatively through the cancellation
/// flag.
///
/// All three fields are the manager's own bookkeeping; the flag value is
/// mirrored into the shared atomic by the caller whenever a transition
/// reports it changed.
#[derive(Clone, Copy, Debug, PartialEq, Eq, Structural)]
pub struct LifecycleManager {
    /// Current lifecycle state.
    pub state: LifecycleState,
    /// The cancellation flag as last written by this manager: the worker
    /// polls it once per sampling period and stops once it is true.
    pub cancel_requested: bool,
    /// Whether a spawned worker may still be running: set at spawn, cleared
    /// only when the worker's exit has been observed.
    pub worker_live: bool,
}

/// The subscribe transition: only a bonded peer, only from `Idle`, and only
/// once no earlier worker may still be live, starts a worker; the spawn
/// clears the cancellation flag for the new run.
pub open spec fn spec_on_subscribe(m: LifecycleManager, peer_bonded: bool) -> (
    LifecycleManager,
    LifecycleAction,
) {
    if !peer_bonded {
        (m, LifecycleAction::Ignored)
    } else if m.state == LifecycleState::Running {
        (m, LifecycleAction::Ignored)
    } else if m.worker_live {
        (m, LifecycleAction::RejectedBusy)
    } else {
        (
            LifecycleManager {
                state: LifecycleState::Running,
                cancel_requested: false,
                worker_live: true,
            },
            LifecycleAction::SpawnWorker,
        )
    }
}

/// The unsubscribe transition: from `Running`, set the cancellation flag and
/// go `Idle` without waiting for the worker (fire-and-forget); the worker
/// stays recorded as live until its exit is observed.
pub open spec fn spec_on_unsubscribe(m: LifecycleManager) -> (LifecycleManager, LifecycleAction) {
    if m.state == LifecycleState::Running {
        (
            LifecycleManager {
                state: LifecycleState::Idle,
                cancel_requested: true,
                worker_live: m.worker_live,
            },
            LifecycleAction::SignalCancel,
        )
    } else {
        (m, LifecycleAction::Ignored)
    }
}

/// Observing the worker's exit (it returned, on cancellation or on a fatal
/// read): the system is `Idle` and a new worker may be admitted.
pub open spec fn spec_on_worker_exit(m: LifecycleManager) -> LifecycleManager {
    LifecycleManager {
        state: LifecycleState::Idle,
        cancel_requested: m.cancel_requested,
        worker_live: false,
    }
}

impl LifecycleManager {
    /// `Running` means exactly one worker was started for this run and has
    /// not been cancelled.
    pub open spec fn well_formed(self) -> bool {
        self.state == LifecycleState::Running ==> (self.worker_live && !self.cancel_requested)
    }

    /// The initial manager: idle, flag clear, no worker ever started.
    pub fn new() -> (m: Self)
        ensures
            m.well_formed(),
            m.state == LifecycleState::Idle,
            !m.cancel_requested,
            !m.worker_live,
    {
        LifecycleManager {
            state: LifecycleState::Idle,
            cancel_requested: false,
            worker_live: false,
        }
    }

    /// Handles a subscribe event from the BLE surface.
    pub fn on_subscribe(&mut self, peer_bonded: bool) -> (a: LifecycleAction)
        requires
            old(self).well_formed(),
        ensures
            final(self).well_formed(),
            (*final(self), a) == spec_on_subscribe(*old(self), peer_bonded),
            (a == LifecycleAction::SpawnWorker) <==> (peer_bonded && old(self).state
                == LifecycleState::Idle && !old(self).worker_live),
            a == LifecycleAction::SpawnWorker ==> final(self).state == LifecycleState::Running
                && final(self).worker_live && !final(self).cancel_requested,
            a != LifecycleAction::SpawnWorker ==> *final(self) == *old(self),
            !peer_bonded ==> a == LifecycleAction::Ignored,
    {
        if !peer_bonded {
            return LifecycleAction::Ignored;
        }
        match self.state {
            LifecycleState::Running => LifecycleAction::Ignored,
            LifecycleState::Idle => {
                if self.worker_live {
                    LifecycleAction::RejectedBusy
                } else {
                    self.state = LifecycleState::Running;
                    self.cancel_requested = false;
                    self.worker_live = true;
                    LifecycleAction::SpawnWorker
                }
            },
        }
    }

    /// Handles an unsubscribe event from the BLE surface.
    pub fn on_unsubscribe(&mut self) -> (a: LifecycleAction)
        requires
            old(self).well_formed(),
        ensures
            final(self).well_formed(),
            (*final(self), a) == spec_on_unsubscribe(*old(self)),
            (a == LifecycleAction::SignalCancel) <==> old(self).state == LifecycleState::Running,
            a == LifecycleAction::SignalCancel ==> final(self).state == LifecycleState::Idle
                && final(self).cancel_requested,
            a != LifecycleAction::SignalCancel ==> *final(self) == *old(self),
    {
        match self.state {
            LifecycleState::Running => {
                self.state = LifecycleState::Idle;
                self.cancel_requested = true;
                LifecycleAction::SignalCancel
            },
            LifecycleState::Idle => LifecycleAction::Ignored,
        }
    }

    /// Records that the worker's exit has been observed (its run function
    /// returned): only now may a new subscribe admit a fresh worker.
    pub fn on_worker_exit(&mut self)
        requires
            old(self).well_formed(),
        ensures
            final(self).well_formed(),
            *final(self) == spec_on_worker_exit(*old(self)),
            final(self).state == LifecycleState::Idle,
            !final(self).worker_live,
            final(self).cancel_requested == old(self).cancel_requested,
    {
        self.state = LifecycleState::Idle;
        self.worker_live = false;
    }
}

/// Single-worker law, first half: a spawn is only ever issued while no
/// previously started worker may still be live.
pub proof fn lemma_spawn_only_without_live_worker(m: LifecycleManager, peer_bonded: bool)
    requires
        m.well_formed(),
    ensures
        spec_on_subscribe(m, peer_bonded).1 == LifecycleAction::SpawnWorker ==> !m.worker_live,
{
}

/// Single-worker law, second half: two subscribe events with no intervening
/// observed worker exit start at most one worker, whoever they come from.
pub proof fn lemma_single_worker(m: LifecycleManager, bonded_first: bool, bonded_second: bool)
    requires
        m.well_formed(),
    ensures
        ({
            let (m1, a1) = spec_on_subscribe(m, bonded_first);
            let (m2, a2) = spec_on_subscribe(m1, bonded_second);
            !(a1 == LifecycleAction::SpawnWorker && a2 == LifecycleAction::SpawnWorker)
        }),
{
}

/// Unbonded-gating law: a subscribe event from an unbonded peer changes
/// nothing and starts nothing, whatever the current state.
pub proof fn lemma_unbonded_gating(m: LifecycleManager)
    requires
        m.well_formed(),
    ensures
        spec_on_subscribe(m, false).0 == m,
        spec_on_subscribe(m, false).1 == LifecycleAction::Ignored,
{
}

/// Bounded-latency cancellation law: handling an unsubscribe while running
/// sets the cancellation flag, and the worker's next poll of that flag — at
/// most one sampling period later — emits no sample and stops the run,
/// whatever the read returned and whatever state the channel is in.
pub proof fn lemma_bounded_cancellation(
    m: LifecycleManager,
    reading: AdcReading,
    receiver_live: bool,
    full: bool,
)
    requires
        m.well_formed(),
        m.state == LifecycleState::Running,
    ensures
        ({
            let (m1, a) = spec_on_unsubscribe(m);
            &&& a == LifecycleAction::SignalCancel
            &&& m1.cancel_requested
            &&& spec_tick_result(m1.cancel_requested, reading, receiver_live, full)
                == TickResult::Stopped(StopCause::Cancelled)
            &&& !tick_emits(m1.cancel_requested, reading, receiver_live, full)
        }),
{
}

} // verus!
