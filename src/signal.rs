//! The process-wide exit signal and the coordinator's walk through the
//! phases of shutdown.
use vstd::prelude::*;

verus! {

/// The exit flag as the interrupt handler and the coordinator see it. It is
/// set once; later interrupts find it set and do nothing.
#[derive(Clone, Copy, Debug, PartialEq, Eq, Structural)]
pub struct ExitSignal {
    pub fired: bool,
}

impl ExitSignal {
    pub fn new() -> (s: ExitSignal)
        ensures
            !s.fired,
    {
        ExitSignal { fired: false }
    }

    /// Delivers one interrupt. Returns whether waiters must be notified: only
    /// the delivery that sets the flag notifies.
    pub fn deliver_interrupt(&mut self) -> (notify: bool)
        ensures
            notify == !old(self).fired,
            final(self).fired,
    {
        let notify = !self.fired;
        self.fired = true;
        notify
    }

    /// Delivers `n` interrupts in a row and returns how many of them notified.
    pub fn deliver_interrupts(&mut self, n: u64) -> (notified: u64)
        ensures
            notified == notifications(old(self).fired, n as nat),
            final(self).fired == (old(self).fired || n > 0),
    {
        let mut notified: u64 = 0;
        let mut i: u64 = 0;
        while i < n
            invariant
                i <= n,
                notified <= i,
                self.fired == (old(self).fired || i > 0),
                notified + notifications(self.fired, (n - i) as nat) == notifications(
                    old(self).fired,
                    n as nat,
                ),
            decreases n - i,
        {
            proof {
                notifications_unfold(self.fired, (n - i) as nat);
            }
            if self.deliver_interrupt() {
                notified = notified + 1;
            }
            i = i + 1;
        }
        notified
    }
}

/// How many of `n` interrupts in a row notify, starting from a flag `fired`.
pub open spec fn notifications(fired: bool, n: nat) -> nat
    decreases n,
{
    if n == 0 {
        0
    } else {
        (if fired { 0nat } else { 1nat }) + notifications(true, (n - 1) as nat)
    }
}

proof fn notifications_unfold(fired: bool, n: nat)
    requires
        n > 0,
    ensures
        notifications(fired, n) == (if fired { 0nat } else { 1nat }) + notifications(true, (n - 1) as nat),
{
}

proof fn no_notifications_once_fired(n: nat)
    ensures
        notifications(true, n) == 0,
    decreases n,
{
    if n > 0 {
        no_notifications_once_fired((n - 1) as nat);
    }
}

/// Any positive number of interrupts delivered before anyone wakes notifies
/// exactly once; once the flag is set, no interrupt notifies again.
pub proof fn interrupts_notify_once(n: nat)
    requires
        n > 0,
    ensures
        notifications(false, n) == 1,
        notifications(true, n) == 0,
{
    no_notifications_once_fired((n - 1) as nat);
    no_notifications_once_fired(n);
}

/// The phases of the shutdown coordinator.
#[derive(Clone, Copy, Debug, PartialEq, Eq, Structural)]
pub enum Phase {
    /// Blocked on the exit signal.
    Waiting,
    /// Woken by the signal; the lifecycle handle is being taken.
    Signaled,
    /// The handle is taken; the worker, if any, is stopped and the strong
    /// references are released.
    TearingDown,
    /// Polling the store until it is freed or the hard bound passes.
    Done,
}

/// What the coordinator hears.
#[derive(Clone, Copy, Debug, PartialEq, Eq, Structural)]
pub enum CoordinatorEvent {
    /// A notification of the exit signal.
    Woken,
    /// The lifecycle handle was taken; it held a worker or not.
    HandleTaken { has_worker: bool },
    /// The worker is stopped and every strong reference held is released.
    Released,
}

/// What the coordinator does next.
#[derive(Clone, Copy, Debug, PartialEq, Eq, Structural)]
pub enum CoordinatorAction {
    /// Nothing: the event changes nothing in this phase.
    Ignore,
    /// Take the lifecycle handle, which can be taken once only.
    TakeHandle,
    /// Stop the worker, then release it and every other strong reference.
    StopWorker,
    /// Release every strong reference held; there is no worker to stop.
    ReleaseReferences,
    /// Start polling the store.
    StartPolling,
}

/// The phase and action that follow an event.
pub open spec fn coordinator_step(phase: Phase, e: CoordinatorEvent) -> (Phase, CoordinatorAction) {
    match (phase, e) {
        (Phase::Waiting, CoordinatorEvent::Woken) => (Phase::Signaled, CoordinatorAction::TakeHandle),
        (Phase::Signaled, CoordinatorEvent::HandleTaken { has_worker }) => (
            Phase::TearingDown,
            if has_worker { CoordinatorAction::StopWorker } else { CoordinatorAction::ReleaseReferences },
        ),
        (Phase::TearingDown, CoordinatorEvent::Released) => (Phase::Done, CoordinatorAction::StartPolling),
        (p, _) => (p, CoordinatorAction::Ignore),
    }
}

/// The coordinator's state: its phase and how often the handle has been taken.
#[derive(Clone, Copy, Debug, PartialEq, Eq, Structural)]
pub struct Coordinator {
    pub phase: Phase,
    pub handles_taken: u64,
}

impl Coordinator {
    /// Holds when exactly the phases after `Waiting` have taken the handle, once.
    pub open spec fn wf(&self) -> bool {
        &&& self.handles_taken <= 1
        &&& (self.handles_taken == 0 <==> self.phase is Waiting)
    }

    pub fn new() -> (c: Coordinator)
        ensures
            c.phase == Phase::Waiting,
            c.handles_taken == 0,
            c.wf(),
    {
        Coordinator { phase: Phase::Waiting, handles_taken: 0 }
    }

    /// Handles one event. The handle is taken on the first wake-up only.
    pub fn on_event(&mut self, e: CoordinatorEvent) -> (a: CoordinatorAction)
        requires
            old(self).wf(),
        ensures
            (final(self).phase, a) == coordinator_step(old(self).phase, e),
            final(self).handles_taken == old(self).handles_taken + (if a is TakeHandle { 1int } else { 0int }),
            final(self).wf(),
    {
        match (self.phase, e) {
            (Phase::Waiting, CoordinatorEvent::Woken) => {
                self.phase = Phase::Signaled;
                self.handles_taken = self.handles_taken + 1;
                CoordinatorAction::TakeHandle
            },
            (Phase::Signaled, CoordinatorEvent::HandleTaken { has_worker }) => {
                self.phase = Phase::TearingDown;
                if has_worker {
                    CoordinatorAction::StopWorker
                } else {
                    CoordinatorAction::ReleaseReferences
                }
            },
            (Phase::TearingDown, CoordinatorEvent::Released) => {
                self.phase = Phase::Done;
                CoordinatorAction::StartPolling
            },
            _ => CoordinatorAction::Ignore,
        }
    }
}

/// How many times the handle is taken over a sequence of events.
pub open spec fn handle_takes(phase: Phase, events: Seq<CoordinatorEvent>) -> nat
    decreases events.len(),
{
    if events.len() == 0 {
        0
    } else {
        let (next, a) = coordinator_step(phase, events[0]);
        (if a is TakeHandle { 1nat } else { 0nat }) + handle_takes(next, events.drop_first())
    }
}

proof fn no_take_after_wake(phase: Phase, events: Seq<CoordinatorEvent>)
    requires
        !(phase is Waiting),
    ensures
        handle_takes(phase, events) == 0,
    decreases events.len(),
{
    if events.len() > 0 {
        no_take_after_wake(coordinator_step(phase, events[0]).0, events.drop_first());
    }
}

/// However many wake-ups reach the coordinator, the lifecycle handle is taken,
/// and the shutdown sequence run, at most once over any sequence of events.
pub proof fn shutdown_runs_once(events: Seq<CoordinatorEvent>)
    ensures
        handle_takes(Phase::Waiting, events) <= 1,
    decreases events.len(),
{
    if events.len() > 0 {
        let rest = events.drop_first();
        if events[0] is Woken {
            no_take_after_wake(Phase::Signaled, rest);
        } else {
            shutdown_runs_once(rest);
        }
    }
}

} // verus!
