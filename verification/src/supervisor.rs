//! The worker supervisor: liveness bookkeeping over worker statuses, so that
//! an abnormally terminated worker is detected by the next scheduling call.

use vstd::prelude::*;

verus! {

/// The liveness status the embedding program reports for one worker: a
/// plain record, swept on each scheduling round, in place of probing a
/// poisoned lock per worker thread.
#[derive(Clone, Copy, Debug, PartialEq, Eq, Structural)]
pub enum WorkerStatus {
    Running,
    Finished,
    Crashed,
}

/// The statuses that remain after a sweep: exactly the running ones, in
/// order.
pub open spec fn running_only(s: Seq<WorkerStatus>) -> Seq<WorkerStatus>
    decreases s.len(),
{
    if s.len() == 0 {
        Seq::empty()
    } else if s.last() is Running {
        running_only(s.drop_last()).push(s.last())
    } else {
        running_only(s.drop_last())
    }
}

/// Sweep the status list: keep the running workers, drop the finished ones,
/// and report whether any worker terminated abnormally. A crash is fatal to
/// the process; the caller must not schedule further work after a sweep
/// reports one.
pub fn sweep_statuses(monitor: &mut Vec<WorkerStatus>) -> (crashed: bool)
    ensures
        final(monitor)@ == running_only(old(monitor)@),
        crashed == exists|i: int| 0 <= i < old(monitor)@.len() && old(monitor)@[i] is Crashed,
{
    let n = monitor.len();
    let mut kept: Vec<WorkerStatus> = Vec::new();
    let mut crashed: bool = false;
    let mut i: usize = 0;
    while i < n
        invariant
            i <= n,
            n == monitor@.len(),
            kept@ == running_only(monitor@.subrange(0, i as int)),
            crashed == exists|j: int| 0 <= j < i && monitor@[j] is Crashed,
        decreases n - i,
    {
        let status = monitor[i];
        match status {
            WorkerStatus::Running => {
                kept.push(status);
            },
            WorkerStatus::Finished => {},
            WorkerStatus::Crashed => {
                crashed = true;
            },
        }
        proof {
            assert(monitor@.subrange(0, i + 1 as int).drop_last() == monitor@.subrange(
                0,
                i as int,
            ));
            assert(monitor@.subrange(0, i + 1 as int).last() == monitor@[i as int]);
        }
        i = i + 1;
    }
    proof {
        assert(monitor@.subrange(0, n as int) == monitor@);
    }
    *monitor = kept;
    crashed
}

} // verus!
