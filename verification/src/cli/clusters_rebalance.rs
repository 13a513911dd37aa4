//! `clusters rebalance`: asks each addressed cluster to rebalance.

use std::sync::Arc;

use futures::channel::oneshot::Canceled;
use vstd::prelude::*;

use crate::cli::shell::{
    lemma_row_insert_fresh, Cell, CellView, CommandError, NamedArg, Row, Signature, SignatureView,
    Sweep, SyntaxShape,
};
use crate::client::GenericRequest;
use crate::state::State;

verus! {

/// The error a reply channel reports when its sender went away unanswered.
#[verifier::external_type_specification]
#[verifier::external_body]
pub struct ExCanceled(Canceled);

/// Renders `futures::channel::oneshot::Canceled` with its `Display` impl,
/// which writes the fixed text `oneshot canceled`.
#[verifier::external_body]
fn canceled_text(e: &Canceled) -> (text: String)
    ensures
        text@ == "oneshot canceled"@,
{
    e.to_string()
}

/// The `clusters rebalance` command.
pub struct ClustersRebalance {
    state: Arc<State>,
}

/// What the sweep of `clusters rebalance` does next.
#[derive(Debug, PartialEq, Eq)]
pub enum RebalanceStep {
    /// Send `request` to cluster `identifier` and wait for its reply.
    Send { identifier: String, request: GenericRequest },
    /// Every cluster has replied.
    Done,
    /// The command fails with this error.
    Fail(CommandError),
}

/// A sweep of `clusters rebalance` over the addressed clusters, with a row
/// for each cluster whose reply never came.
pub struct RebalanceRun {
    sweep: Sweep,
    results: Vec<Row>,
}

/// The row shown for a cluster whose reply channel was dropped.
pub open spec fn canceled_row() -> Seq<(Seq<char>, CellView)> {
    seq![("error"@, CellView::Text("oneshot canceled"@))]
}

/// The rebalance call: a `post` to `/controller/rebalance` with no body.
pub open spec fn is_rebalance_request(r: GenericRequest) -> bool {
    &&& r.path@ == "/controller/rebalance"@
    &&& r.method@ == "post"@
    &&& r.payload is None
}

/// The row of a dropped reply has one column, `error`, which reads `oneshot canceled`.
pub proof fn law_canceled_row_columns()
    ensures
        canceled_row().len() == 1,
        canceled_row()[0] == ("error"@, CellView::Text("oneshot canceled"@)),
{
}

impl RebalanceRun {
    /// The sweep over the clusters.
    pub closed spec fn sweep(self) -> Sweep {
        self.sweep
    }

    /// The rows collected so far.
    pub closed spec fn results(self) -> Seq<Seq<(Seq<char>, CellView)>> {
        self.results@.map_values(|r: Row| r@)
    }

    /// Takes the reply of the current cluster and moves on to the next: a
    /// reply adds nothing, a dropped channel adds a row that says so. Once
    /// every cluster has been dealt with, nothing changes.
    pub fn on_reply(&mut self, reply: Result<(), Canceled>)
        ensures
            final(self).sweep().ids() == old(self).sweep().ids(),
            old(self).sweep().finished() ==> final(self).sweep().pos() == old(self).sweep().pos()
                && final(self).results() == old(self).results(),
            !old(self).sweep().finished() ==> final(self).sweep().pos() == old(self).sweep().pos() + 1,
            !old(self).sweep().finished() && reply is Ok ==> final(self).results() == old(self).results(),
            !old(self).sweep().finished() && reply is Err ==> final(self).results() == old(self).results().push(canceled_row()),
    {
        if self.sweep.current().is_none() {
            return;
        }
        match reply {
            Ok(()) => {},
            Err(e) => {
                let text = canceled_text(&e);
                let mut row = Row::new();
                proof {
                    lemma_row_insert_fresh(row@, "error"@, CellView::Text(text@));
                }
                row.insert("error", Cell::Text(text));
                let ghost before = self.results@;
                self.results.push(row);
                assert(self.results@.map_values(|r: Row| r@) =~= before.map_values(|r: Row| r@).push(canceled_row()));
            },
        }
        self.sweep.advance();
    }

    /// The rows, one for each cluster whose reply never came.
    pub fn into_results(self) -> (r: Vec<Row>)
        ensures
            r@.map_values(|row: Row| row@) == self.results(),
    {
        self.results
    }
}

impl ClustersRebalance {
    /// The registry the command works on.
    pub closed spec fn registry(self) -> State {
        *self.state
    }

    /// The command, working on `state`.
    pub fn new(state: Arc<State>) -> (c: Self)
        ensures
            c.registry() == *state,
    {
        Self { state }
    }

    /// The registry the command works on.
    pub fn state(&self) -> (r: &Arc<State>)
        ensures
            **r == self.registry(),
    {
        &self.state
    }

    /// The name the command is called by.
    pub fn name(&self) -> (r: &'static str)
        ensures
            r@ == "clusters rebalance"@,
    {
        "clusters rebalance"
    }

    /// The parameters of the command: the clusters to contact, by name.
    pub fn signature(&self) -> (s: Signature)
        ensures
            s@ == (SignatureView {
                name: "clusters rebalance"@,
                required: seq![],
                named: seq![("clusters"@, SyntaxShape::String, "the clusters which should be contacted"@, None::<char>)],
            }),
    {
        let mut named: Vec<NamedArg> = Vec::new();
        named.push(NamedArg::string("clusters", "the clusters which should be contacted"));
        let s = Signature { name: String::from_str("clusters rebalance"), required: Vec::new(), named };
        assert(s@.required =~= seq![]);
        assert(s@.named =~= seq![("clusters"@, SyntaxShape::String, "the clusters which should be contacted"@, None::<char>)]);
        s
    }

    /// What the command says it does.
    pub fn usage(&self) -> (r: &'static str)
        ensures
            r@ == "Triggers a cluster rebalance"@,
    {
        "Triggers a cluster rebalance"
    }

    /// A sweep over `identifiers`, the clusters the call addresses, with no row yet.
    pub fn start(&self, identifiers: Vec<String>) -> (run: RebalanceRun)
        ensures
            run.sweep().ids() == identifiers@.map_values(|i: String| i@),
            run.sweep().pos() == 0,
            run.results() == Seq::<Seq<(Seq<char>, CellView)>>::empty(),
    {
        let run = RebalanceRun { sweep: Sweep::new(identifiers), results: Vec::new() };
        assert(run.results() =~= Seq::<Seq<(Seq<char>, CellView)>>::empty());
        run
    }

    /// What to do next: ask the current cluster to rebalance, fail on a
    /// cluster the registry does not know, or stop when every cluster has replied.
    pub fn next_step(&self, run: &RebalanceRun) -> (step: RebalanceStep)
        ensures
            ({
                let ids = run.sweep().ids();
                let pos = run.sweep().pos();
                let clusters = self.registry()@.clusters;
                match step {
                    RebalanceStep::Done => run.sweep().finished(),
                    RebalanceStep::Fail(e) => {
                        &&& !run.sweep().finished()
                        &&& !clusters.dom().contains(ids[pos])
                        &&& e.reason@ == "Cluster not found"@
                    },
                    RebalanceStep::Send { identifier, request } => {
                        &&& !run.sweep().finished()
                        &&& clusters.dom().contains(ids[pos])
                        &&& identifier@ == ids[pos]
                        &&& is_rebalance_request(request)
                        &&& request.path@ == "/controller/rebalance"@
                        &&& request.method@ == "post"@
                        &&& request.payload is None
                    },
                }
            }),
    {
        match run.sweep.current() {
            None => RebalanceStep::Done,
            Some(id) => match self.state.cluster(id) {
                None => RebalanceStep::Fail(CommandError::runtime("Cluster not found")),
                Some(_) => RebalanceStep::Send {
                    identifier: id.clone(),
                    request: GenericRequest {
                        path: String::from_str("/controller/rebalance"),
                        method: String::from_str("post"),
                        payload: None,
                    },
                },
            },
        }
    }
}

} // verus!
