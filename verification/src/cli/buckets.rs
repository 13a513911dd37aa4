//! `buckets`: the buckets of each addressed cluster, with a row in place of
//! the buckets of a cluster that could not be asked.

use std::sync::{Arc, Mutex};

use vstd::prelude::*;

use crate::cli::shell::{
    columns_unique, lemma_row_insert_next, runtime_error_display, Cell, CellView, CommandError, NamedArg, Row,
    Signature, SignatureView, Sweep, SyntaxShape,
};
use crate::client::{ManagementCall, ManagementRequest};
use crate::state::State;

verus! {

/// A lock that guards a value shared between threads.
#[verifier::external_type_specification]
#[verifier::external_body]
#[verifier::reject_recursive_types(T)]
pub struct ExMutex<T: ?Sized>(Mutex<T>);

/// The `buckets` command.
pub struct Buckets {
    state: Arc<Mutex<State>>,
}

/// What the sweep of `buckets` does next.
#[derive(Debug, PartialEq, Eq)]
pub enum BucketsStep {
    /// Ask cloud organisation `org` for the buckets of cloud cluster
    /// `identifier`: find the cluster's id there, then request its buckets,
    /// both within one deadline `timeout_ms` from now.
    FetchCloud { identifier: String, org: String, timeout_ms: u64 },
    /// Ask cluster `identifier` for its buckets.
    Fetch { identifier: String, call: ManagementCall },
    /// The current cluster is unknown; a row that says so was added.
    Skipped,
    /// Every cluster has been dealt with.
    Done,
}

/// A sweep of `buckets` over the addressed clusters, with the rows so far.
pub struct BucketsRun {
    sweep: Sweep,
    rows: Vec<Row>,
}

/// The row shown in place of the buckets of cluster `identifier`, which
/// could not be listed because of an error displayed as `error`.
pub open spec fn error_row(identifier: Seq<char>, error: Seq<char>) -> Seq<(Seq<char>, CellView)> {
    seq![
        ("cluster"@, CellView::Text(identifier)),
        ("name"@, CellView::Text(Seq::empty())),
        ("type"@, CellView::Text(Seq::empty())),
        ("replicas"@, CellView::Text(Seq::empty())),
        ("min_durability_level"@, CellView::Text(Seq::empty())),
        ("ram_quota"@, CellView::Text(Seq::empty())),
        ("flush_enabled"@, CellView::Text(Seq::empty())),
        ("status"@, CellView::Text(Seq::empty())),
        ("cloud"@, CellView::Bool(false)),
        ("error"@, CellView::Text(error)),
    ]
}

/// No two columns of an error row have the same name, so a shell dictionary
/// built from the row column by column keeps every column.
pub proof fn law_error_row_columns_distinct(identifier: Seq<char>, error: Seq<char>)
    ensures
        columns_unique(error_row(identifier, error)),
        error_row(identifier, error).len() == 10,
{
    reveal_strlit("cluster");
    reveal_strlit("name");
    reveal_strlit("type");
    reveal_strlit("replicas");
    reveal_strlit("min_durability_level");
    reveal_strlit("ram_quota");
    reveal_strlit("flush_enabled");
    reveal_strlit("status");
    reveal_strlit("cloud");
    reveal_strlit("error");
    assert("cluster"@.len() == 7 && "name"@.len() == 4 && "type"@.len() == 4);
    assert("replicas"@.len() == 8 && "min_durability_level"@.len() == 20);
    assert("ram_quota"@.len() == 9 && "flush_enabled"@.len() == 13 && "status"@.len() == 6);
    assert("cloud"@.len() == 5 && "error"@.len() == 5);
    assert("name"@[0] == 'n' && "type"@[0] == 't' && "cloud"@[0] == 'c' && "error"@[0] == 'e');
}

/// The row shown in place of the buckets of cluster `identifier`, which
/// could not be listed because of an error displayed as `error`.
pub fn make_error_row(identifier: &String, error: String) -> (row: Row)
    ensures
        row@ == error_row(identifier@, error@),
{
    let ghost target = error_row(identifier@, error@);
    proof {
        law_error_row_columns_distinct(identifier@, error@);
    }
    let mut row = Row::new();
    assert(row@ =~= target.take(0));
    proof { lemma_row_insert_next(target, 0); }
    row.insert("cluster", Cell::Text(identifier.clone()));
    proof { lemma_row_insert_next(target, 1); }
    row.insert("name", Cell::Text(String::new()));
    proof { lemma_row_insert_next(target, 2); }
    row.insert("type", Cell::Text(String::new()));
    proof { lemma_row_insert_next(target, 3); }
    row.insert("replicas", Cell::Text(String::new()));
    proof { lemma_row_insert_next(target, 4); }
    row.insert("min_durability_level", Cell::Text(String::new()));
    proof { lemma_row_insert_next(target, 5); }
    row.insert("ram_quota", Cell::Text(String::new()));
    proof { lemma_row_insert_next(target, 6); }
    row.insert("flush_enabled", Cell::Text(String::new()));
    proof { lemma_row_insert_next(target, 7); }
    row.insert("status", Cell::Text(String::new()));
    proof { lemma_row_insert_next(target, 8); }
    row.insert("cloud", Cell::Bool(false));
    proof { lemma_row_insert_next(target, 9); }
    row.insert("error", Cell::Text(error));
    assert(target.take(10) =~= target);
    row
}

/// The row shown in place of the buckets of cluster `identifier`, which the
/// registry does not know.
pub open spec fn unknown_cluster_row(identifier: Seq<char>) -> Seq<(Seq<char>, CellView)> {
    error_row(identifier, runtime_error_display("Cluster not known"@))
}

/// The row shown in place of the buckets of cloud cluster `identifier`, whose
/// organisation answered with a status other than 200 and the body `content`.
pub open spec fn refused_row(identifier: Seq<char>, content: Seq<char>) -> Seq<(Seq<char>, CellView)> {
    error_row(identifier, runtime_error_display("Unexpected: "@ + content))
}

/// An error row shows the cluster, leaves every bucket column empty, marks
/// the cluster as not a cloud one, and ends with the error; for an unknown
/// cluster the error reads `Unknown Error(Cluster not known)`, and for a cloud
/// answer with another status than 200 it reads `Unknown Error(Unexpected: `,
/// the body, and `)`.
pub proof fn law_error_row_columns(identifier: Seq<char>, error: Seq<char>, content: Seq<char>)
    ensures
        error_row(identifier, error).len() == 10,
        error_row(identifier, error)[0] == ("cluster"@, CellView::Text(identifier)),
        forall|i: int| 1 <= i < 8 ==> (#[trigger] error_row(identifier, error)[i]).1 == CellView::Text(Seq::empty()),
        error_row(identifier, error)[8] == ("cloud"@, CellView::Bool(false)),
        error_row(identifier, error)[9] == ("error"@, CellView::Text(error)),
        unknown_cluster_row(identifier)[9] == ("error"@, CellView::Text("Unknown Error(Cluster not known)"@)),
        refused_row(identifier, content)[9] == ("error"@, CellView::Text("Unknown Error(Unexpected: "@ + content + ")"@)),
{
    reveal_strlit("Unknown Error(");
    reveal_strlit("Cluster not known");
    reveal_strlit("Unknown Error(Cluster not known)");
    reveal_strlit(")");
    reveal_strlit("Unexpected: ");
    reveal_strlit("Unknown Error(Unexpected: ");
    assert("Unknown Error("@ + "Cluster not known"@ + ")"@ =~= "Unknown Error(Cluster not known)"@);
    assert("Unknown Error("@ + ("Unexpected: "@ + content) + ")"@ =~= "Unknown Error(Unexpected: "@ + content + ")"@);
}

impl BucketsRun {
    /// The sweep over the clusters.
    pub closed spec fn sweep(self) -> Sweep {
        self.sweep
    }

    /// The rows collected so far.
    pub closed spec fn rows(self) -> Seq<Seq<(Seq<char>, CellView)>> {
        self.rows@.map_values(|r: Row| r@)
    }

    /// Adds `row` for the current cluster and moves on to the next.
    fn record(&mut self, row: Row)
        requires
            !old(self).sweep().finished(),
        ensures
            final(self).sweep().ids() == old(self).sweep().ids(),
            final(self).sweep().pos() == old(self).sweep().pos() + 1,
            final(self).rows() == old(self).rows().push(row@),
    {
        let ghost before = self.rows@;
        self.rows.push(row);
        assert(self.rows@.map_values(|r: Row| r@) =~= before.map_values(|r: Row| r@).push(row@));
        self.sweep.advance();
    }

    /// Takes the answer of the cloud organisation for the current cluster:
    /// with status 200 its body is handed back to be decoded, and nothing
    /// changes; any other status adds a row with the body, and moves on to
    /// the next cluster. Once every cluster has been dealt with, nothing changes.
    pub fn on_cloud_response(&mut self, status: u16, content: String) -> (body: Option<String>)
        ensures
            final(self).sweep().ids() == old(self).sweep().ids(),
            old(self).sweep().finished() || status == 200 ==> final(self).sweep().pos() == old(self).sweep().pos()
                && final(self).rows() == old(self).rows(),
            !old(self).sweep().finished() && status == 200 ==> body == Some(content),
            old(self).sweep().finished() || status != 200 ==> body is None,
            !old(self).sweep().finished() && status != 200 ==> final(self).sweep().pos() == old(self).sweep().pos() + 1
                && final(self).rows() == old(self).rows().push(
                    refused_row(old(self).sweep().ids()[old(self).sweep().pos()], content@),
                ),
    {
        match self.sweep.current() {
            None => None,
            Some(id) => {
                if status == 200 {
                    Some(content)
                } else {
                    let error = CommandError::unexpected(content.as_str());
                    let row = make_error_row(id, error.display_text());
                    self.record(row);
                    None
                }
            },
        }
    }

    /// Adds `buckets`, the rows of the current cluster's buckets, and moves on
    /// to the next cluster. Once every cluster has been dealt with, nothing changes.
    pub fn on_buckets(&mut self, buckets: Vec<Row>)
        ensures
            final(self).sweep().ids() == old(self).sweep().ids(),
            old(self).sweep().finished() ==> final(self).sweep().pos() == old(self).sweep().pos()
                && final(self).rows() == old(self).rows(),
            !old(self).sweep().finished() ==> final(self).sweep().pos() == old(self).sweep().pos() + 1
                && final(self).rows() == old(self).rows() + buckets@.map_values(|r: Row| r@),
    {
        if self.sweep.current().is_none() {
            return;
        }
        let ghost before = self.rows@;
        let ghost added = buckets@;
        let mut buckets = buckets;
        self.rows.append(&mut buckets);
        assert(self.rows@.map_values(|r: Row| r@) =~= before.map_values(|r: Row| r@) + added.map_values(|r: Row| r@));
        self.sweep.advance();
    }

    /// Adds a row in place of the buckets of the current cluster, which could
    /// not be listed because of an error displayed as `error`, and moves on to
    /// the next cluster. Once every cluster has been dealt with, nothing changes.
    pub fn on_failure(&mut self, error: String)
        ensures
            final(self).sweep().ids() == old(self).sweep().ids(),
            old(self).sweep().finished() ==> final(self).sweep().pos() == old(self).sweep().pos()
                && final(self).rows() == old(self).rows(),
            !old(self).sweep().finished() ==> final(self).sweep().pos() == old(self).sweep().pos() + 1
                && final(self).rows() == old(self).rows().push(
                    error_row(old(self).sweep().ids()[old(self).sweep().pos()], error@),
                ),
    {
        match self.sweep.current() {
            None => {},
            Some(id) => {
                let row = make_error_row(id, error);
                self.record(row);
            },
        }
    }

    /// The rows, cluster by cluster.
    pub fn into_rows(self) -> (r: Vec<Row>)
        ensures
            r@.map_values(|row: Row| row@) == self.rows(),
    {
        self.rows
    }
}

impl Buckets {
    /// The lock around the registry the command works on.
    pub closed spec fn lock(self) -> Arc<Mutex<State>> {
        self.state
    }

    /// The command, working on the registry behind `state`.
    pub fn new(state: Arc<Mutex<State>>) -> (c: Self)
        ensures
            c.lock() == state,
    {
        Self { state }
    }

    /// The lock around the registry the command works on.
    pub fn state(&self) -> (r: &Arc<Mutex<State>>)
        ensures
            *r == self.lock(),
    {
        &self.state
    }

    /// The name the command is called by.
    pub fn name(&self) -> (r: &'static str)
        ensures
            r@ == "buckets"@,
    {
        "buckets"
    }

    /// The parameters of the command: the clusters to contact, by name.
    pub fn signature(&self) -> (s: Signature)
        ensures
            s@ == (SignatureView {
                name: "buckets"@,
                required: seq![],
                named: seq![("clusters"@, SyntaxShape::String, "the clusters which should be contacted"@, None::<char>)],
            }),
    {
        let mut named: Vec<NamedArg> = Vec::new();
        named.push(NamedArg::string("clusters", "the clusters which should be contacted"));
        let s = Signature { name: String::from_str("buckets"), required: Vec::new(), named };
        assert(s@.required =~= seq![]);
        assert(s@.named =~= seq![("clusters"@, SyntaxShape::String, "the clusters which should be contacted"@, None::<char>)]);
        s
    }

    /// What the command says it does.
    pub fn usage(&self) -> (r: &'static str)
        ensures
            r@ == "Perform bucket management operations"@,
    {
        "Perform bucket management operations"
    }

    /// A sweep over `identifiers`, the clusters the call addresses, with no row yet.
    pub fn start(&self, identifiers: Vec<String>) -> (run: BucketsRun)
        ensures
            run.sweep().ids() == identifiers@.map_values(|i: String| i@),
            run.sweep().pos() == 0,
            run.rows() == Seq::<Seq<(Seq<char>, CellView)>>::empty(),
    {
        let run = BucketsRun { sweep: Sweep::new(identifiers), rows: Vec::new() };
        assert(run.rows() =~= Seq::<Seq<(Seq<char>, CellView)>>::empty());
        run
    }

    /// What to do next, given `state`, the registry behind the lock: ask the
    /// current cluster for its buckets, through its cloud organisation when it
    /// has one and within its management time; add a row for a cluster the
    /// registry does not know and move on; or stop when every cluster has been
    /// dealt with.
    pub fn next_step(&self, state: &State, run: &mut BucketsRun) -> (step: BucketsStep)
        ensures
            ({
                let ids = old(run).sweep().ids();
                let pos = old(run).sweep().pos();
                let clusters = state@.clusters;
                &&& final(run).sweep().ids() == ids
                &&& match step {
                    BucketsStep::Done => {
                        &&& old(run).sweep().finished()
                        &&& *final(run) == *old(run)
                    },
                    BucketsStep::Skipped => {
                        &&& !old(run).sweep().finished()
                        &&& !clusters.dom().contains(ids[pos])
                        &&& final(run).sweep().pos() == pos + 1
                        &&& final(run).rows() == old(run).rows().push(unknown_cluster_row(ids[pos]))
                    },
                    BucketsStep::FetchCloud { identifier, org, timeout_ms } => {
                        &&& !old(run).sweep().finished()
                        &&& clusters.dom().contains(ids[pos])
                        &&& identifier@ == ids[pos]
                        &&& clusters[ids[pos]].cloud_org == Some(org)
                        &&& timeout_ms == clusters[ids[pos]].management_timeout_ms
                        &&& *final(run) == *old(run)
                    },
                    BucketsStep::Fetch { identifier, call } => {
                        &&& !old(run).sweep().finished()
                        &&& clusters.dom().contains(ids[pos])
                        &&& identifier@ == ids[pos]
                        &&& clusters[ids[pos]].cloud_org is None
                        &&& call == (ManagementCall {
                            request: ManagementRequest::GetBuckets,
                            timeout_ms: clusters[ids[pos]].management_timeout_ms,
                        })
                        &&& *final(run) == *old(run)
                    },
                }
            }),
    {
        let id = match run.sweep.current() {
            None => {
                return BucketsStep::Done;
            },
            Some(id) => id.clone(),
        };
        match state.cluster(&id) {
            None => {
                let error = CommandError::runtime("Cluster not known");
                let row = make_error_row(&id, error.display_text());
                run.record(row);
                BucketsStep::Skipped
            },
            Some(c) => match &c.cloud_org {
                Some(org) => BucketsStep::FetchCloud {
                    identifier: id,
                    org: org.clone(),
                    timeout_ms: c.management_timeout_ms,
                },
                None => BucketsStep::Fetch {
                    identifier: id,
                    call: ManagementCall {
                        request: ManagementRequest::GetBuckets,
                        timeout_ms: c.management_timeout_ms,
                    },
                },
            },
        }
    }
}

} // verus!
