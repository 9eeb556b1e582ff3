//! Bookkeeping of the supervisor loop: one task per replica runs
//! concurrently outside the library, and every completion is fed to
//! [`Supervisor::on_completion`], which decides what to log and when the
//! process-level terminal error is due. The active set starts non-empty,
//! shrinks by exactly one entry per completion, and the terminal error is
//! raised the moment it empties — whether the tasks succeeded or failed.

use vstd::prelude::*;

use crate::error::AgentError;
use crate::events::LogEvent;

verus! {

/// How one replica task ended: a graceful return, or an error rendered as
/// one line of detail.
#[derive(Debug)]
pub enum TaskResult {
    Succeeded,
    Failed(String),
}

/// The supervisor's working state: the names of the replica tasks still
/// running, in the order they were started.
#[derive(Debug)]
pub struct Supervisor {
    /// Names of the in-flight tasks; shrinks monotonically, never grows.
    pub active: Vec<String>,
}

impl Supervisor {
    /// Start supervising one task per name. Supervision of an empty set is
    /// undefined, so the set must start non-empty.
    pub fn new(names: Vec<String>) -> (s: Supervisor)
        requires
            names@.len() > 0,
        ensures
            s.active@ == names@,
    {
        Supervisor { active: names }
    }

    /// How many tasks are still running.
    pub fn active_count(&self) -> (n: usize)
        ensures
            n == self.active@.len(),
    {
        self.active.len()
    }

    /// Process the completion of the task at `idx` in the active set: a
    /// failed task yields one attributable log event (the loop neither
    /// retries nor crashes); either way the task leaves the set, the last
    /// entry taking its slot — the same order a race over a shrinking
    /// collection of tasks keeps for its remainder; and the terminal
    /// all-replicas-shut-down error is returned exactly when the set has
    /// emptied.
    pub fn on_completion(&mut self, idx: usize, result: TaskResult) -> (r: (
        Option<LogEvent>,
        Option<AgentError>,
    ))
        requires
            idx < old(self).active@.len(),
        ensures
            final(self).active@ == old(self).active@.update(
                idx as int,
                old(self).active@.last(),
            ).drop_last(),
            (match result {
                TaskResult::Failed(detail) => r.0 == Some(
                    LogEvent::ReplicaFailed {
                        replica: old(self).active@[idx as int],
                        error: detail,
                    },
                ),
                TaskResult::Succeeded => r.0 is None,
            }),
            final(self).active@.len() == 0 ==> r.1 == Some(AgentError::AllReplicasShutDown),
            final(self).active@.len() > 0 ==> r.1 is None,
    {
        let name = self.active.swap_remove(idx);
        let log = match result {
            TaskResult::Failed(detail) => Some(
                LogEvent::ReplicaFailed { replica: name, error: detail },
            ),
            TaskResult::Succeeded => None,
        };
        let terminal = if self.active.is_empty() {
            Some(AgentError::AllReplicasShutDown)
        } else {
            None
        };
        (log, terminal)
    }
}

/// The active set left after a fresh supervisor over `names` has processed
/// the completions of `sched`, each entry the index of the completed task
/// within the set of its moment.
pub open spec fn remaining_after(names: Seq<String>, sched: Seq<int>) -> Seq<String>
    decreases sched.len(),
{
    if sched.len() == 0 {
        names
    } else {
        let prior = remaining_after(names, sched.drop_last());
        if 0 <= sched.last() < prior.len() {
            prior.update(sched.last(), prior.last()).drop_last()
        } else {
            prior
        }
    }
}

/// Whether every completion of `sched` names a task that is still in the
/// active set at its moment: the set shrinks by one per step, so the `k`th
/// completion must pick an index below `names.len() - k`.
pub open spec fn valid_schedule(names: Seq<String>, sched: Seq<int>) -> bool {
    forall|k: int| 0 <= k < sched.len() ==> 0 <= #[trigger] sched[k] < names.len() - k
}

/// The supervisor's active set decreases strictly: after any valid sequence
/// of completions, exactly that many tasks have left the set.
pub proof fn lemma_supervisor_drain(names: Seq<String>, sched: Seq<int>)
    requires
        sched.len() <= names.len(),
        valid_schedule(names, sched),
    ensures
        remaining_after(names, sched).len() == names.len() - sched.len(),
    decreases sched.len(),
{
    if sched.len() > 0 {
        let prefix = sched.drop_last();
        assert forall|k: int| 0 <= k < prefix.len() implies 0 <= #[trigger] prefix[k]
            < names.len() - k by {
            assert(prefix[k] == sched[k]);
        }
        lemma_supervisor_drain(names, prefix);
        assert(0 <= sched[sched.len() - 1] < names.len() - (sched.len() - 1));
    }
}

/// The supervisor terminates with the all-exhausted error if and only if
/// every spawned task has resolved: a fresh supervisor over a non-empty set
/// of names reaches an empty active set exactly when as many completions
/// have been processed as tasks were started, and never earlier.
pub proof fn lemma_exhaustion_iff_all_resolved(names: Seq<String>, sched: Seq<int>)
    requires
        names.len() > 0,
        sched.len() <= names.len(),
        valid_schedule(names, sched),
    ensures
        (remaining_after(names, sched).len() == 0) <==> (sched.len() == names.len()),
{
    lemma_supervisor_drain(names, sched);
}

} // verus!
