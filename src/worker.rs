//! Optional long-running workers behind one stoppable capability.
use vstd::prelude::*;

verus! {

/// The closed set of worker kinds that a node may run.
#[derive(Clone, Copy, Debug, PartialEq, Eq, Structural)]
pub enum WorkerKind {
    /// Generates blocks, at a fixed interval or by proof-of-work search.
    BlockGenerator,
    /// Pushes transactions from genesis accounts into the pool.
    TransactionGenerator,
    /// Puts simple and contract transactions straight into blocks.
    DirectTransactionGenerator,
}

/// A worker and whether it has been stopped.
#[derive(Clone, Copy, Debug, PartialEq, Eq, Structural)]
pub struct Worker {
    pub kind: WorkerKind,
    pub stopped: bool,
}

/// The worker and the release flag that a stop request leaves.
pub open spec fn stop_spec(w: Worker) -> (Worker, bool) {
    (Worker { kind: w.kind, stopped: true }, !w.stopped)
}

impl Worker {
    pub fn new(kind: WorkerKind) -> (w: Worker)
        ensures
            w.kind == kind,
            !w.stopped,
    {
        Worker { kind, stopped: false }
    }

    /// Asks the worker to stop. Returns whether this call is the one that
    /// releases its resources: the first call does, any later one does
    /// nothing. Safe whether or not the worker ever did real work.
    pub fn stop(&mut self) -> (released: bool)
        ensures
            (*final(self), released) == stop_spec(*old(self)),
    {
        let released = !self.stopped;
        self.stopped = true;
        released
    }
}

/// Stopping a worker twice releases its resources at most once, and exactly
/// once if it was running; the second stop changes nothing.
pub proof fn stop_twice_releases_once(w: Worker)
    ensures
        ({
            let (w1, r1) = stop_spec(w);
            let (w2, r2) = stop_spec(w1);
            &&& !r2
            &&& w2 == w1
            &&& r1 == !w.stopped
            &&& w1.stopped
            &&& w1.kind == w.kind
        }),
{
}

} // verus!
