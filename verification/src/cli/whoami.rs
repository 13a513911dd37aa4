//! `whoami`: the roles and domain of the connected user, on each addressed cluster.

use std::sync::Arc;

use vstd::prelude::*;

use crate::cli::shell::{
    json_parse_object, member, members_view, names_ascending, names_unique, parse_json_object, set_member, with_member, CommandError, JsonValue, NamedArg, Signature, SignatureView, Sweep,
    SyntaxShape,
};
use crate::client::ManagementRequest;
use crate::state::State;

verus! {

/// The `whoami` command.
pub struct Whoami {
    state: Arc<State>,
}

/// What the sweep of `whoami` does next.
#[derive(Debug, PartialEq, Eq)]
pub enum WhoamiStep {
    /// Ask cluster `identifier` who the user is, within `timeout_ms`.
    Request { identifier: String, request: ManagementRequest, timeout_ms: u64 },
    /// Every cluster has answered.
    Done,
    /// The command fails with this error.
    Fail(CommandError),
}

/// A sweep of `whoami` over the addressed clusters, with the answers so far.
pub struct WhoamiRun {
    sweep: Sweep,
    entries: Vec<JsonValue>,
}

/// `entry` is the answer `content` of cluster `identifier` with its member
/// `cluster` set to the cluster's name, as a map ordered by name sets it.
pub open spec fn entry_of(entry: JsonValue, content: Seq<(Seq<char>, JsonValue)>, identifier: Seq<char>) -> bool {
    &&& entry matches JsonValue::Object(m)
    &&& members_view(m@) == with_member(content, "cluster"@, JsonValue::Text(cluster_text(entry)))
    &&& names_cluster(entry, identifier)
}

/// `entry` is an object whose names come in ascending name order, each once.
pub open spec fn in_name_order(entry: JsonValue) -> bool {
    &&& entry matches JsonValue::Object(m)
    &&& names_ascending(members_view(m@))
    &&& names_unique(members_view(m@))
}

/// The text of the member `cluster` of `entry`, if it is an object with such a text member.
pub open spec fn cluster_text(entry: JsonValue) -> String {
    match entry {
        JsonValue::Object(m) => match member(members_view(m@), "cluster"@) {
            Some(JsonValue::Text(t)) => t,
            _ => arbitrary(),
        },
        _ => arbitrary(),
    }
}

/// `entry` is an object whose member `cluster` is the text `identifier`.
pub open spec fn names_cluster(entry: JsonValue, identifier: Seq<char>) -> bool {
    &&& entry matches JsonValue::Object(m)
    &&& member(members_view(m@), "cluster"@) matches Some(JsonValue::Text(t))
    &&& t@ == identifier
}

/// Once a sweep that keeps one answer per cluster is over, there is one answer
/// for every addressed cluster, in the order they were addressed, and each
/// names its cluster.
pub proof fn law_finished_run_names_every_cluster(run: WhoamiRun)
    requires
        run.tagged(),
        run.sweep().finished(),
    ensures
        run.entries().len() == run.sweep().ids().len(),
        forall|i: int| 0 <= i < run.sweep().ids().len()
            ==> names_cluster(#[trigger] run.entries()[i], run.sweep().ids()[i]),
{
}

impl WhoamiRun {
    /// The sweep over the clusters.
    pub closed spec fn sweep(self) -> Sweep {
        self.sweep
    }

    /// The answers collected so far, one per cluster dealt with.
    pub closed spec fn entries(self) -> Seq<JsonValue> {
        self.entries@
    }

    /// There is one answer per cluster dealt with, and each names its cluster.
    pub open spec fn tagged(self) -> bool {
        &&& self.entries().len() == self.sweep().pos()
        &&& forall|i: int| 0 <= i < self.entries().len()
            ==> names_cluster(#[trigger] self.entries()[i], self.sweep().ids()[i])
    }

    /// Records `content`, the answer of the current cluster, and moves on to
    /// the next cluster. Once every cluster has been dealt with, nothing changes.
    pub fn on_response(&mut self, content: Vec<(String, JsonValue)>)
        ensures
            final(self).sweep().ids() == old(self).sweep().ids(),
            old(self).sweep().finished() ==> final(self).entries() == old(self).entries()
                && final(self).sweep().pos() == old(self).sweep().pos(),
            !old(self).sweep().finished() ==> {
                &&& final(self).sweep().pos() == old(self).sweep().pos() + 1
                &&& final(self).entries().len() == old(self).entries().len() + 1
                &&& final(self).entries().drop_last() == old(self).entries()
                &&& entry_of(
                    final(self).entries().last(),
                    members_view(content@),
                    old(self).sweep().ids()[old(self).sweep().pos()],
                )
                &&& names_ascending(members_view(content@)) ==> in_name_order(final(self).entries().last())
            },
            old(self).tagged() ==> final(self).tagged(),
    {
        let ghost old_entries = self.entries@;
        let ghost c = members_view(content@);
        match self.sweep.current() {
            None => {},
            Some(id) => {
                let name = id.clone();
                let ghost idv = name@;
                let mut members = content;
                set_member(&mut members, "cluster", JsonValue::Text(name));
                let entry = JsonValue::Object(members);
                proof {
                    reveal_strlit("cluster");
                    assert(entry_of(entry, c, idv));
                }
                self.entries.push(entry);
                self.sweep.advance();
                proof {
                    assert(self.entries@.drop_last() =~= old_entries);
                    assert(forall|i: int| 0 <= i < old_entries.len() ==> self.entries@[i] == old_entries[i]);
                }
            },
        }
    }

    /// Takes `content`, the body the current cluster answered with: when it
    /// parses as a JSON object, records it as [`Self::on_response`] does;
    /// otherwise the command fails with the parser's error and nothing changes.
    pub fn on_body(&mut self, content: &str) -> (r: Result<(), CommandError>)
        ensures
            final(self).sweep().ids() == old(self).sweep().ids(),
            match json_parse_object(content@) {
                Err(message) => {
                    &&& r matches Err(e)
                    &&& e.reason@ == message
                    &&& final(self).entries() == old(self).entries()
                    &&& final(self).sweep().pos() == old(self).sweep().pos()
                },
                Ok(members) => {
                    &&& r is Ok
                    &&& old(self).sweep().finished() ==> final(self).entries() == old(self).entries()
                        && final(self).sweep().pos() == old(self).sweep().pos()
                    &&& !old(self).sweep().finished() ==> {
                        &&& final(self).sweep().pos() == old(self).sweep().pos() + 1
                        &&& final(self).entries().len() == old(self).entries().len() + 1
                        &&& final(self).entries().drop_last() == old(self).entries()
                        &&& entry_of(
                            final(self).entries().last(),
                            members,
                            old(self).sweep().ids()[old(self).sweep().pos()],
                        )
                        &&& in_name_order(final(self).entries().last())
                    }
                },
            },
            old(self).tagged() ==> final(self).tagged(),
    {
        match parse_json_object(content) {
            Err(message) => Err(CommandError { reason: message }),
            Ok(members) => {
                self.on_response(members);
                Ok(())
            },
        }
    }

    /// The answers, one per cluster dealt with.
    pub fn into_entries(self) -> (r: Vec<JsonValue>)
        ensures
            r@ == self.entries(),
    {
        self.entries
    }
}

impl Whoami {
    /// The registry the command works on.
    pub closed spec fn registry(self) -> State {
        *self.state
    }

    /// The command, working on `state`.
    pub fn new(state: Arc<State>) -> (c: Self)
        ensures
            c.registry() == *state,
    {
        Self { state }
    }

    /// The registry the command works on.
    pub fn state(&self) -> (r: &Arc<State>)
        ensures
            **r == self.registry(),
    {
        &self.state
    }

    /// The name the command is called by.
    pub fn name(&self) -> (r: &'static str)
        ensures
            r@ == "whoami"@,
    {
        "whoami"
    }

    /// The parameters of the command: the clusters to contact, by name.
    pub fn signature(&self) -> (s: Signature)
        ensures
            s@ == (SignatureView {
                name: "whoami"@,
                required: seq![],
                named: seq![("clusters"@, SyntaxShape::String, "the clusters which should be contacted"@, None::<char>)],
            }),
    {
        let mut named: Vec<NamedArg> = Vec::new();
        named.push(NamedArg::string("clusters", "the clusters which should be contacted"));
        let s = Signature { name: String::from_str("whoami"), required: Vec::new(), named };
        assert(s@.required =~= seq![]);
        assert(s@.named =~= seq![("clusters"@, SyntaxShape::String, "the clusters which should be contacted"@, None::<char>)]);
        s
    }

    /// What the command says it does.
    pub fn usage(&self) -> (r: &'static str)
        ensures
            r@ == "Shows roles and domain for the connected user"@,
    {
        "Shows roles and domain for the connected user"
    }

    /// A sweep over `identifiers`, the clusters the call addresses, with no answer yet.
    pub fn start(&self, identifiers: Vec<String>) -> (run: WhoamiRun)
        ensures
            run.sweep().ids() == identifiers@.map_values(|i: String| i@),
            run.sweep().pos() == 0,
            run.entries() == Seq::<JsonValue>::empty(),
            run.tagged(),
    {
        WhoamiRun { sweep: Sweep::new(identifiers), entries: Vec::new() }
    }

    /// What to do next: ask the current cluster, fail on a cluster the
    /// registry does not know, or stop when every cluster has answered.
    pub fn next_step(&self, run: &WhoamiRun) -> (step: WhoamiStep)
        ensures
            ({
                let ids = run.sweep().ids();
                let pos = run.sweep().pos();
                let clusters = self.registry()@.clusters;
                match step {
                    WhoamiStep::Done => run.sweep().finished(),
                    WhoamiStep::Fail(e) => {
                        &&& !run.sweep().finished()
                        &&& !clusters.dom().contains(ids[pos])
                        &&& e.reason@ == "Cluster not found"@
                    },
                    WhoamiStep::Request { identifier, request, timeout_ms } => {
                        &&& !run.sweep().finished()
                        &&& clusters.dom().contains(ids[pos])
                        &&& identifier@ == ids[pos]
                        &&& request == ManagementRequest::Whoami
                        &&& timeout_ms == clusters[ids[pos]].query_timeout_ms
                    },
                }
            }),
    {
        match run.sweep.current() {
            None => WhoamiStep::Done,
            Some(id) => match self.state.cluster(id) {
                None => WhoamiStep::Fail(CommandError::runtime("Cluster not found")),
                Some(c) => WhoamiStep::Request {
                    identifier: id.clone(),
                    request: ManagementRequest::Whoami,
                    timeout_ms: c.query_timeout_ms,
                },
            },
        }
    }
}

} // verus!
