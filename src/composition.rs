//! The order in which the composition root builds subsystems, and its
//! all-or-nothing failure policy.
use vstd::prelude::*;

verus! {

/// The construction steps, in the order they run.
#[derive(Clone, Copy, Debug, PartialEq, Eq, Structural)]
pub enum Stage {
    OpenStore,
    DataManager,
    Consensus,
    Sync,
    Network,
    RpcFacade,
    Generators,
    Transports,
}

/// The number of construction steps.
pub const STAGE_COUNT: u64 = 8;

/// The position of a step in the order.
pub open spec fn stage_rank(s: Stage) -> nat {
    match s {
        Stage::OpenStore => 0,
        Stage::DataManager => 1,
        Stage::Consensus => 2,
        Stage::Sync => 3,
        Stage::Network => 4,
        Stage::RpcFacade => 5,
        Stage::Generators => 6,
        Stage::Transports => 7,
    }
}

/// Whether step `s` is built over what step `d` built.
pub open spec fn depends_on(s: Stage, d: Stage) -> bool {
    match s {
        Stage::OpenStore => false,
        Stage::DataManager => d == Stage::OpenStore,
        Stage::Consensus => d == Stage::DataManager,
        Stage::Sync => d == Stage::Consensus,
        Stage::Network => false,
        Stage::RpcFacade => d == Stage::Consensus || d == Stage::Network,
        Stage::Generators => d == Stage::Sync || d == Stage::Consensus,
        Stage::Transports => d == Stage::RpcFacade,
    }
}

/// The position of a step in the order.
pub fn rank(s: Stage) -> (r: u64)
    ensures
        r == stage_rank(s),
        r < STAGE_COUNT,
{
    match s {
        Stage::OpenStore => 0,
        Stage::DataManager => 1,
        Stage::Consensus => 2,
        Stage::Sync => 3,
        Stage::Network => 4,
        Stage::RpcFacade => 5,
        Stage::Generators => 6,
        Stage::Transports => 7,
    }
}

/// How far startup has come: the steps before `built` are done, and once a
/// step fails nothing more is built.
#[derive(Clone, Copy, Debug, PartialEq, Eq, Structural)]
pub struct StartupProgress {
    pub built: u64,
    pub failed: bool,
}

impl StartupProgress {
    pub open spec fn wf(&self) -> bool {
        self.built <= STAGE_COUNT
    }

    /// Whether step `s` is done.
    pub open spec fn has_built(&self, s: Stage) -> bool {
        stage_rank(s) < self.built
    }

    pub fn new() -> (p: StartupProgress)
        ensures
            p.built == 0,
            !p.failed,
            p.wf(),
    {
        StartupProgress { built: 0, failed: false }
    }

    /// Asks to run step `s`. It may run only when nothing has failed and it
    /// is the next step; it is then counted as built.
    pub fn begin(&mut self, s: Stage) -> (ok: bool)
        requires
            old(self).wf(),
        ensures
            ok == (!old(self).failed && stage_rank(s) == old(self).built),
            final(self).built == (if ok { old(self).built + 1 } else { old(self).built as int }),
            final(self).failed == old(self).failed,
            final(self).wf(),
    {
        if !self.failed && rank(s) == self.built {
            self.built = self.built + 1;
            true
        } else {
            false
        }
    }

    /// Records that a step failed: startup is aborted.
    pub fn fail(&mut self)
        ensures
            final(self).failed,
            final(self).built == old(self).built,
    {
        self.failed = true;
    }

    /// Whether every step is built and none failed.
    pub fn is_complete(&self) -> (r: bool)
        ensures
            r == (!self.failed && self.built == STAGE_COUNT),
    {
        !self.failed && self.built == STAGE_COUNT
    }
}

/// Every step depends only on steps that come before it, so a step that is
/// allowed to run finds each of its dependencies built.
pub proof fn dependencies_are_built_first(p: StartupProgress, s: Stage, d: Stage)
    requires
        !p.failed,
        stage_rank(s) == p.built,
        depends_on(s, d),
    ensures
        stage_rank(d) < stage_rank(s),
        p.has_built(d),
{
}

} // verus!
