//! Background monitors: best-effort reporters that hold only a weak reference
//! to what they report on, so that they never keep the process alive.
use vstd::prelude::*;

verus! {

/// How long a monitor waits on the exit signal between two reports, in milliseconds.
pub const DEFAULT_MONITOR_WAIT_MS: u64 = 5000;

/// How a monitor's wait on the exit signal ended.
#[derive(Clone, Copy, Debug, PartialEq, Eq, Structural)]
pub enum WaitOutcome {
    /// The wait ran out with no signal.
    TimedOut,
    /// The exit signal was given.
    Signaled,
}

/// What a monitor does after a wait.
#[derive(Clone, Copy, Debug, PartialEq, Eq, Structural)]
pub enum MonitorAction {
    /// Run one reporting cycle, then wait again.
    Report,
    /// Leave the loop.
    Stop,
}

/// A monitor reports only after a wait that timed out and while what it
/// reports on is still alive.
pub open spec fn monitor_decision(w: WaitOutcome, target_alive: bool) -> MonitorAction {
    match w {
        WaitOutcome::TimedOut => if target_alive { MonitorAction::Report } else { MonitorAction::Stop },
        WaitOutcome::Signaled => MonitorAction::Stop,
    }
}

/// Decides what a monitor does after a wait; `target_alive` tells whether
/// its weak reference still resolved.
pub fn monitor_step(w: WaitOutcome, target_alive: bool) -> (a: MonitorAction)
    ensures
        a == monitor_decision(w, target_alive),
{
    match w {
        WaitOutcome::TimedOut => if target_alive {
            MonitorAction::Report
        } else {
            MonitorAction::Stop
        },
        WaitOutcome::Signaled => MonitorAction::Stop,
    }
}

/// One wake-up of a monitor: how its wait ended, and whether its target was
/// alive when it looked.
pub type MonitorLook = (WaitOutcome, bool);

/// The index of the wake-up at which the monitor leaves its loop, or the
/// number of wake-ups if it is still running after them all. It is also the
/// number of reports made.
pub open spec fn stop_index(looks: Seq<MonitorLook>) -> nat
    decreases looks.len(),
{
    if looks.len() == 0 {
        0
    } else if monitor_decision(looks[0].0, looks[0].1) is Stop {
        0
    } else {
        1 + stop_index(looks.drop_first())
    }
}

/// A monitor leaves its loop no later than the first wake-up at which its
/// target is gone, signal or no signal: at most one wait after the target
/// becomes unreachable.
pub proof fn monitor_stops_once_target_gone(looks: Seq<MonitorLook>, k: int)
    requires
        0 <= k < looks.len(),
        !looks[k].1,
    ensures
        stop_index(looks) <= k,
        monitor_decision(looks[k].0, looks[k].1) is Stop,
    decreases looks.len(),
{
    if k > 0 && !(monitor_decision(looks[0].0, looks[0].1) is Stop) {
        let rest = looks.drop_first();
        assert(rest[k - 1] == looks[k]);
        monitor_stops_once_target_gone(rest, k - 1);
    }
}

/// A monitor makes no report at or after an explicit signal.
pub proof fn monitor_stops_on_signal(looks: Seq<MonitorLook>, k: int)
    requires
        0 <= k < looks.len(),
        looks[k].0 is Signaled,
    ensures
        stop_index(looks) <= k,
    decreases looks.len(),
{
    if k > 0 && !(monitor_decision(looks[0].0, looks[0].1) is Stop) {
        let rest = looks.drop_first();
        assert(rest[k - 1] == looks[k]);
        monitor_stops_on_signal(rest, k - 1);
    }
}

} // verus!
