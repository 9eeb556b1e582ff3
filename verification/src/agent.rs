//! The state every agent instance shares: one handle to the home chain and a
//! mapping from replica name to a replica-chain handle. The set of replicas
//! is fixed after construction; all handles are shared read-only across the
//! agent's concurrent tasks.

use std::sync::Arc;
use vstd::prelude::*;

verus! {

/// A shared handle to the home chain's bridge contract. The connection
/// itself lives outside the core; the handle carries only its identity.
#[derive(Debug, PartialEq, Eq, Structural)]
pub struct HomeHandle {
    pub connection_id: u64,
}

/// A shared handle to one replica chain's bridge contract.
#[derive(Debug, PartialEq, Eq, Structural)]
pub struct ReplicaHandle {
    pub connection_id: u64,
}

/// Relies on `Arc::clone`: the clone is a new reference to the same
/// allocation, so its contents equal the argument's.
#[verifier::external_body]
fn clone_arc<T>(a: &Arc<T>) -> (r: Arc<T>)
    ensures
        r == *a,
{
    a.clone()
}

/// Properties shared across all agents: the home handle and the mapping
/// from replica name to replica handle, immutable after construction.
#[derive(Debug)]
pub struct AgentCore {
    /// The single source-of-truth chain.
    pub home: Arc<HomeHandle>,
    /// The name-to-handle mapping, one entry per replica. Names are meant
    /// to be unique; lookups resolve to the first entry with the name.
    pub replicas: Vec<(String, Arc<ReplicaHandle>)>,
}

/// Whether every replica name occurs at most once in the mapping.
pub open spec fn names_unique(entries: Seq<(String, Arc<ReplicaHandle>)>) -> bool {
    forall|i: int, j: int|
        0 <= i < j < entries.len() ==> (#[trigger] entries[i]).0@ != (#[trigger] entries[j]).0@
}

impl AgentCore {
    /// The home handle: always the same underlying connection, never
    /// reconstructed.
    pub fn home(&self) -> (r: Arc<HomeHandle>)
        ensures
            r == self.home,
    {
        clone_arc(&self.home)
    }

    /// The full name-to-handle mapping, read-only.
    pub fn replicas(&self) -> (r: &Vec<(String, Arc<ReplicaHandle>)>)
        ensures
            r == &self.replicas,
    {
        &self.replicas
    }

    /// The handle stored under `name`, if any: the first entry with that
    /// name decides, and an absent name is a normal outcome, not an error.
    pub fn replica_by_name(&self, name: &String) -> (r: Option<Arc<ReplicaHandle>>)
        ensures
            r is None ==> forall|j: int|
                0 <= j < self.replicas@.len() ==> (#[trigger] self.replicas@[j]).0@ != name@,
            r matches Some(h) ==> exists|j: int|
                {
                    &&& 0 <= j < self.replicas@.len()
                    &&& (#[trigger] self.replicas@[j]).0@ == name@
                    &&& h == self.replicas@[j].1
                    &&& forall|k: int| 0 <= k < j ==> (#[trigger] self.replicas@[k]).0@ != name@
                },
    {
        let n = self.replicas.len();
        let mut i: usize = 0;
        while i < n
            invariant
                n == self.replicas@.len(),
                0 <= i <= n,
                forall|k: int| 0 <= k < i ==> (#[trigger] self.replicas@[k]).0@ != name@,
            decreases n - i,
        {
            if self.replicas[i].0.eq(name) {
                return Some(clone_arc(&self.replicas[i].1));
            }
            i = i + 1;
        }
        None
    }

    /// A snapshot of every replica name in the mapping, in entry order,
    /// taken once at the time of the call.
    pub fn replica_names(&self) -> (r: Vec<String>)
        ensures
            r@.len() == self.replicas@.len(),
            forall|j: int| 0 <= j < r@.len() ==> (#[trigger] r@[j])@ == self.replicas@[j].0@,
    {
        let n = self.replicas.len();
        let mut names: Vec<String> = Vec::new();
        let mut i: usize = 0;
        while i < n
            invariant
                n == self.replicas@.len(),
                0 <= i <= n,
                names@.len() == i,
                forall|j: int| 0 <= j < i ==> (#[trigger] names@[j])@ == self.replicas@[j].0@,
            decreases n - i,
        {
            names.push(self.replicas[i].0.clone());
            i = i + 1;
        }
        names
    }

    /// Whether the mapping's names are pairwise distinct; a host process
    /// can check this once after construction.
    pub fn check_names_unique(&self) -> (r: bool)
        ensures
            r == names_unique(self.replicas@),
    {
        let n = self.replicas.len();
        let mut i: usize = 0;
        while i < n
            invariant
                n == self.replicas@.len(),
                0 <= i <= n,
                forall|p: int, q: int|
                    0 <= p < q < n && p < i ==> (#[trigger] self.replicas@[p]).0@ != (
                    #[trigger] self.replicas@[q]).0@,
            decreases n - i,
        {
            let mut j: usize = i + 1;
            while j < n
                invariant
                    n == self.replicas@.len(),
                    0 <= i < j <= n,
                    forall|q: int|
                        i < q < j ==> (#[trigger] self.replicas@[q]).0@ != self.replicas@[
                            i as int].0@,
                decreases n - j,
            {
                if self.replicas[i].0.eq(&self.replicas[j].0) {
                    return false;
                }
                j = j + 1;
            }
            i = i + 1;
        }
        true
    }
}

/// Idempotence of the accessors: `home` promises a result equal to the
/// `home` field and nothing else, so any two results it may return for the
/// same core are the same handle — the connection is never reconstructed.
/// `replicas` returns the field itself, so the same holds of it.
pub proof fn lemma_home_idempotent(core: AgentCore, first: Arc<HomeHandle>, second: Arc<
    HomeHandle,
>)
    requires
        first == core.home,
        second == core.home,
    ensures
        first == second,
{
}

} // verus!
