//! The final phase of shutdown: polling the store's weak back-reference until
//! no owner is left, or until the hard bound declares the shutdown unclean.
use vstd::prelude::*;

verus! {

/// Interval between two polls of the store, in milliseconds.
pub const DEFAULT_POLL_MS: u64 = 1000;

/// Elapsed time after which one warning is emitted, in milliseconds.
pub const DEFAULT_WARN_MS: u64 = 5000;

/// Elapsed time after which shutdown is declared unclean, in milliseconds.
pub const DEFAULT_MAX_MS: u64 = 1_200_000;

/// The three time bounds of the polling phase, in milliseconds.
#[derive(Clone, Copy, Debug, PartialEq, Eq, Structural)]
pub struct ShutdownTimeouts {
    pub poll_ms: u64,
    pub warn_ms: u64,
    pub max_ms: u64,
}

impl ShutdownTimeouts {
    /// One second between polls, a warning after five, unclean after twenty minutes.
    pub fn standard() -> (t: ShutdownTimeouts)
        ensures
            t.poll_ms == DEFAULT_POLL_MS,
            t.warn_ms == DEFAULT_WARN_MS,
            t.max_ms == DEFAULT_MAX_MS,
    {
        ShutdownTimeouts { poll_ms: DEFAULT_POLL_MS, warn_ms: DEFAULT_WARN_MS, max_ms: DEFAULT_MAX_MS }
    }
}

/// What the poller does after one look at the store.
#[derive(Clone, Copy, Debug, PartialEq, Eq, Structural)]
pub enum PollAction {
    /// The store has no owner left: shutdown is clean.
    Clean,
    /// The hard bound has passed: shutdown is unclean, the process exits anyway.
    Unclean,
    /// Sleep one interval and look again; `warn` asks for the one warning.
    Sleep { warn: bool },
}

/// The decision for one poll at `elapsed` milliseconds after polling began.
pub open spec fn poll_decision(t: ShutdownTimeouts, warned: bool, elapsed: u64, store_alive: bool) -> PollAction {
    if elapsed >= t.max_ms {
        PollAction::Unclean
    } else if !store_alive {
        PollAction::Clean
    } else {
        PollAction::Sleep { warn: !warned && elapsed > t.warn_ms }
    }
}

/// The state of the polling phase between two looks at the store.
#[derive(Clone, Copy, Debug)]
pub struct GracefulCheck {
    pub timeouts: ShutdownTimeouts,
    pub warned: bool,
}

impl GracefulCheck {
    pub fn new(timeouts: ShutdownTimeouts) -> (c: GracefulCheck)
        ensures
            c.timeouts == timeouts,
            !c.warned,
    {
        GracefulCheck { timeouts, warned: false }
    }

    /// Takes one look at the store, `elapsed_ms` after polling began, and
    /// decides whether to stop, and how.
    pub fn observe(&mut self, elapsed_ms: u64, store_alive: bool) -> (a: PollAction)
        ensures
            a == poll_decision(old(self).timeouts, old(self).warned, elapsed_ms, store_alive),
            final(self).timeouts == old(self).timeouts,
            final(self).warned == (old(self).warned || a == (PollAction::Sleep { warn: true })),
    {
        if elapsed_ms >= self.timeouts.max_ms {
            PollAction::Unclean
        } else if !store_alive {
            PollAction::Clean
        } else if !self.warned && elapsed_ms > self.timeouts.warn_ms {
            self.warned = true;
            PollAction::Sleep { warn: true }
        } else {
            PollAction::Sleep { warn: false }
        }
    }
}

/// One look at the store: the elapsed milliseconds and whether it still had an owner.
pub type Observation = (u64, bool);

/// The outcome of polling over a sequence of looks: `Some(clean)` once a look
/// ends the polling (later looks are never taken), `None` while it goes on.
pub open spec fn trace_outcome(t: ShutdownTimeouts, warned: bool, obs: Seq<Observation>) -> Option<bool>
    decreases obs.len(),
{
    if obs.len() == 0 {
        None
    } else {
        let a = poll_decision(t, warned, obs[0].0, obs[0].1);
        match a {
            PollAction::Clean => Some(true),
            PollAction::Unclean => Some(false),
            PollAction::Sleep { warn } => trace_outcome(t, warned || warn, obs.drop_first()),
        }
    }
}

/// The number of warnings emitted over a sequence of looks.
pub open spec fn trace_warnings(t: ShutdownTimeouts, warned: bool, obs: Seq<Observation>) -> nat
    decreases obs.len(),
{
    if obs.len() == 0 {
        0
    } else {
        let a = poll_decision(t, warned, obs[0].0, obs[0].1);
        match a {
            PollAction::Sleep { warn } => (if warn { 1nat } else { 0nat }) + trace_warnings(
                t,
                warned || warn,
                obs.drop_first(),
            ),
            _ => 0,
        }
    }
}

/// Every look finds the store still owned.
pub open spec fn always_owned(obs: Seq<Observation>) -> bool {
    forall|i: int| 0 <= i < obs.len() ==> #[trigger] obs[i].1
}

/// The looks are taken at times that never go back.
pub open spec fn monotone(obs: Seq<Observation>) -> bool {
    forall|i: int, j: int| 0 <= i <= j < obs.len() ==> obs[i].0 <= obs[j].0
}

/// Some look is taken at or after the hard bound.
pub open spec fn reaches_bound(t: ShutdownTimeouts, obs: Seq<Observation>) -> bool {
    exists|i: int| 0 <= i < obs.len() && (#[trigger] obs[i]).0 >= t.max_ms
}

/// Some look is taken after the soft bound and before the hard bound.
pub open spec fn crosses_soft_bound(t: ShutdownTimeouts, obs: Seq<Observation>) -> bool {
    exists|i: int| 0 <= i < obs.len() && t.warn_ms < (#[trigger] obs[i]).0 < t.max_ms
}

/// A store that has no owner at the first look gives a clean shutdown at once,
/// with no sleep before it, whenever the hard bound has not yet passed.
pub proof fn freed_store_is_clean_at_once(t: ShutdownTimeouts, warned: bool, elapsed: u64, rest: Seq<Observation>)
    requires
        elapsed < t.max_ms,
    ensures
        poll_decision(t, warned, elapsed, false) == PollAction::Clean,
        trace_outcome(t, warned, seq![(elapsed, false)] + rest) == Some(true),
        trace_warnings(t, warned, seq![(elapsed, false)] + rest) == 0,
{
    let obs = seq![(elapsed, false)] + rest;
    assert(obs[0] == (elapsed, false));
}

proof fn held_store_steps(t: ShutdownTimeouts, warned: bool, obs: Seq<Observation>)
    requires
        always_owned(obs),
        monotone(obs),
    ensures
        trace_outcome(t, warned, obs) == (if reaches_bound(t, obs) { Some(false) } else { None::<bool> }),
        trace_warnings(t, warned, obs) == (if !warned && crosses_soft_bound(t, obs) { 1nat } else { 0nat }),
    decreases obs.len(),
{
    if obs.len() > 0 {
        let rest = obs.drop_first();
        assert(obs[0].1);
        assert forall|i: int| 0 <= i < rest.len() implies #[trigger] rest[i].1 by {
            assert(rest[i] == obs[i + 1]);
        }
        assert forall|i: int, j: int| 0 <= i <= j < rest.len() implies rest[i].0 <= rest[j].0 by {
            assert(rest[i] == obs[i + 1]);
            assert(rest[j] == obs[j + 1]);
        }
        if obs[0].0 >= t.max_ms {
            assert(reaches_bound(t, obs));
            if !warned && crosses_soft_bound(t, obs) {
                let i = choose|i: int| 0 <= i < obs.len() && t.warn_ms < (#[trigger] obs[i]).0 < t.max_ms;
                assert(obs[0].0 <= obs[i].0);
            }
        } else {
            let warn = !warned && obs[0].0 > t.warn_ms;
            held_store_steps(t, warned || warn, rest);
            if reaches_bound(t, obs) {
                let i = choose|i: int| 0 <= i < obs.len() && (#[trigger] obs[i]).0 >= t.max_ms;
                assert(i > 0);
                assert(rest[i - 1] == obs[i]);
            }
            if reaches_bound(t, rest) {
                let i = choose|i: int| 0 <= i < rest.len() && (#[trigger] rest[i]).0 >= t.max_ms;
                assert(rest[i] == obs[i + 1]);
            }
            if crosses_soft_bound(t, rest) {
                let i = choose|i: int| 0 <= i < rest.len() && t.warn_ms < (#[trigger] rest[i]).0 < t.max_ms;
                assert(rest[i] == obs[i + 1]);
            }
            if !warned && crosses_soft_bound(t, obs) && !warn {
                let i = choose|i: int| 0 <= i < obs.len() && t.warn_ms < (#[trigger] obs[i]).0 < t.max_ms;
                assert(i > 0);
                assert(rest[i - 1] == obs[i]);
            }
        }
    }
}

/// While some owner keeps the store alive, polling never reports a clean
/// shutdown: it ends unclean exactly at the first look at or past the hard
/// bound, and it warns exactly once if some look falls between the soft and
/// the hard bound, never otherwise.
pub proof fn held_store_times_out(t: ShutdownTimeouts, obs: Seq<Observation>)
    requires
        always_owned(obs),
        monotone(obs),
    ensures
        trace_outcome(t, false, obs) != Some(true),
        trace_outcome(t, false, obs) == Some(false) <==> reaches_bound(t, obs),
        trace_warnings(t, false, obs) <= 1,
        trace_warnings(t, false, obs) == 1 <==> crosses_soft_bound(t, obs),
{
    held_store_steps(t, false, obs);
}

} // verus!
