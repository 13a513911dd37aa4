//! The shell's registry of known clusters and which of them is active.

use vstd::prelude::*;

verus! {

/// What the shell knows about one registered cluster.
#[derive(Debug, PartialEq, Eq)]
pub struct RemoteCluster {
    /// The bucket selected with `use bucket`, if any.
    pub active_bucket: Option<String>,
    /// The cloud organisation that manages the cluster, if it is a cloud cluster.
    pub cloud_org: Option<String>,
    /// Time budget for queries and most management calls, in milliseconds.
    pub query_timeout_ms: u64,
    /// Time budget for bucket management calls, in milliseconds.
    pub management_timeout_ms: u64,
}

/// The abstract value of a [`State`]: clusters by identifier, and the active one.
pub struct StateView {
    pub clusters: Map<Seq<char>, RemoteCluster>,
    pub active: Seq<char>,
}

/// The registered clusters, each under a unique identifier, one of them active.
pub struct State {
    clusters: Vec<(String, RemoteCluster)>,
    active: String,
}

/// No identifier occurs twice in `entries`.
pub open spec fn keys_unique(entries: Seq<(String, RemoteCluster)>) -> bool {
    forall|i: int, j: int|
        0 <= i < entries.len() && 0 <= j < entries.len() && i != j
            ==> (#[trigger] entries[i]).0@ != (#[trigger] entries[j]).0@
}

/// Some entry of `entries` is registered under `key`.
pub open spec fn has_key(entries: Seq<(String, RemoteCluster)>, key: Seq<char>) -> bool {
    exists|i: int| 0 <= i < entries.len() && (#[trigger] entries[i]).0@ == key
}

/// The map from identifiers to clusters that `entries` lists.
pub open spec fn entries_map(entries: Seq<(String, RemoteCluster)>) -> Map<Seq<char>, RemoteCluster> {
    Map::new(
        |k: Seq<char>| has_key(entries, k),
        |k: Seq<char>|
            entries[choose|i: int| 0 <= i < entries.len() && (#[trigger] entries[i]).0@ == k].1,
    )
}

proof fn lemma_entry_in_map(entries: Seq<(String, RemoteCluster)>, i: int)
    requires
        keys_unique(entries),
        0 <= i < entries.len(),
    ensures
        entries_map(entries).dom().contains(entries[i].0@),
        entries_map(entries)[entries[i].0@] == entries[i].1,
{
    let k = entries[i].0@;
    assert(has_key(entries, k));
    let j = choose|j: int| 0 <= j < entries.len() && (#[trigger] entries[j]).0@ == k;
    assert(entries[j].0@ == k);
}

impl View for State {
    type V = StateView;

    closed spec fn view(&self) -> StateView {
        StateView { clusters: entries_map(self.clusters@), active: self.active@ }
    }
}

impl State {
    #[verifier::type_invariant]
    closed spec fn inv(self) -> bool {
        &&& keys_unique(self.clusters@)
        &&& has_key(self.clusters@, self.active@)
    }

    /// A registry that holds one cluster, which is the active one.
    pub fn new(active: String, cluster: RemoteCluster) -> (s: State)
        ensures
            s@.active == active@,
            s@.clusters == map![active@ => cluster],
    {
        let ghost key = active@;
        let ghost c = cluster;
        let mut clusters: Vec<(String, RemoteCluster)> = Vec::new();
        let id = active.clone();
        clusters.push((id, cluster));
        proof {
            assert(clusters@[0].0@ == key);
            assert(has_key(clusters@, key));
            lemma_entry_in_map(clusters@, 0);
            assert(entries_map(clusters@) =~= map![key => c]);
        }
        State { clusters, active }
    }

    /// The identifier of the active cluster.
    pub fn active_identifier(&self) -> (r: &String)
        ensures
            r@ == self@.active,
    {
        &self.active
    }

    /// The cluster registered under `identifier`, if there is one.
    pub fn cluster(&self, identifier: &String) -> (r: Option<&RemoteCluster>)
        ensures
            match r {
                Some(c) => self@.clusters.dom().contains(identifier@) && *c == self@.clusters[identifier@],
                None => !self@.clusters.dom().contains(identifier@),
            },
    {
        proof {
            use_type_invariant(self);
        }
        let n: usize = self.clusters.len();
        let mut i: usize = 0;
        while i < n
            invariant
                n == self.clusters@.len(),
                0 <= i <= n,
                keys_unique(self.clusters@),
                forall|j: int| 0 <= j < i ==> (#[trigger] self.clusters@[j]).0@ != identifier@,
            decreases n - i,
        {
            if self.clusters[i].0 == *identifier {
                proof {
                    lemma_entry_in_map(self.clusters@, i as int);
                }
                return Some(&self.clusters[i].1);
            }
            i = i + 1;
        }
        None
    }
    /// The active cluster.
    pub fn active_cluster(&self) -> (r: &RemoteCluster)
        ensures
            self@.clusters.dom().contains(self@.active),
            *r == self@.clusters[self@.active],
    {
        proof {
            use_type_invariant(self);
        }
        match self.cluster(&self.active) {
            Some(c) => c,
            None => {
                proof {
                    let k = self.active@;
                    let i = choose|i: int| 0 <= i < self.clusters@.len() && (#[trigger] self.clusters@[i]).0@ == k;
                    lemma_entry_in_map(self.clusters@, i);
                }
                &self.clusters[0].1
            },
        }
    }

    /// This registry with `cluster` registered under `identifier`, in place of
    /// any cluster registered under it before.
    pub fn with_cluster(self, identifier: String, cluster: RemoteCluster) -> (s: State)
        ensures
            s@.active == self@.active,
            s@.clusters == self@.clusters.insert(identifier@, cluster),
    {
        proof {
            use_type_invariant(&self);
        }
        let ghost old_entries = self.clusters@;
        let ghost key = identifier@;
        let ghost c = cluster;
        let State { mut clusters, active } = self;
        let n: usize = clusters.len();
        let mut i: usize = 0;
        while i < n
            invariant
                n == clusters@.len(),
                clusters@ == old_entries,
                key == identifier@,
                0 <= i <= n,
                forall|j: int| 0 <= j < i ==> (#[trigger] clusters@[j]).0@ != key,
            ensures
                i < n ==> clusters@[i as int].0@ == key,
            decreases n - i,
        {
            if clusters[i].0 == identifier {
                break;
            }
            i = i + 1;
        }
        if i < n {
            clusters.set(i, (identifier, cluster));
        } else {
            clusters.push((identifier, cluster));
        }
        proof {
            let e = clusters@;
            assert(i < n ==> old_entries[i as int].0@ == key);
            assert forall|j: int| 0 <= j < n && j != i implies #[trigger] e[j] == old_entries[j] by {}
            assert(e[i as int].0@ == key);
            assert(keys_unique(e));
            assert(has_key(e, active@)) by {
                let a = choose|a: int| 0 <= a < old_entries.len() && (#[trigger] old_entries[a]).0@ == active@;
                assert(e[a].0@ == active@);
            }
            assert forall|k: Seq<char>| #[trigger] has_key(e, k) == (has_key(old_entries, k) || k == key) by {
                if has_key(e, k) {
                    let a = choose|a: int| 0 <= a < e.len() && (#[trigger] e[a]).0@ == k;
                    if a != i {
                        assert(old_entries[a].0@ == k);
                    }
                }
                if has_key(old_entries, k) {
                    let a = choose|a: int| 0 <= a < old_entries.len() && (#[trigger] old_entries[a]).0@ == k;
                    assert(e[a].0@ == k);
                }
                if k == key {
                    assert(e[i as int].0@ == k);
                }
            }
            assert forall|k: Seq<char>| has_key(e, k) implies
                #[trigger] entries_map(e)[k] == entries_map(old_entries).insert(key, c)[k] by {
                let a = choose|a: int| 0 <= a < e.len() && (#[trigger] e[a]).0@ == k;
                lemma_entry_in_map(e, a);
                if k != key {
                    assert(old_entries[a] == e[a]);
                    lemma_entry_in_map(old_entries, a);
                }
            }
            assert(entries_map(e) =~= entries_map(old_entries).insert(key, c));
        }
        State { clusters, active }
    }
}

} // verus!
