//! `users roles`: the roles each addressed cluster offers, one row per role.

use std::sync::Arc;

use vstd::prelude::*;

use crate::cli::shell::{
    columns_unique, lemma_row_insert_next, text_or_empty, unwrap_or_empty, Cell, CellView, CommandError, NamedArg,
    Row, Signature, SignatureView, Sweep, SyntaxShape,
};
use crate::client::{clone_optional, ManagementRequest};
use crate::state::State;

verus! {

/// A role, with the bucket, scope and collection it is limited to, if any.
#[derive(Debug, PartialEq, Eq)]
pub struct Role {
    pub name: String,
    pub bucket: Option<String>,
    pub scope: Option<String>,
    pub collection: Option<String>,
}

/// A role as a cluster lists it: the role, its display name and its description.
#[derive(Debug, PartialEq, Eq)]
pub struct RoleAndDescription {
    pub role: Role,
    pub display_name: String,
    pub description: String,
}

/// The `users roles` command.
pub struct UsersRoles {
    state: Arc<State>,
}

/// What the sweep of `users roles` does next.
#[derive(Debug, PartialEq, Eq)]
pub enum UsersRolesStep {
    /// Ask cluster `identifier` for its roles, within `timeout_ms`.
    Request { identifier: String, request: ManagementRequest, timeout_ms: u64 },
    /// Every cluster has answered.
    Done,
    /// The command fails with this error.
    Fail(CommandError),
}

/// A sweep of `users roles` over the addressed clusters, with the rows so far.
pub struct UsersRolesRun {
    sweep: Sweep,
    permission: Option<String>,
    rows: Vec<Row>,
}

/// The row that shows `role` of cluster `identifier`.
pub open spec fn role_row(identifier: Seq<char>, role: RoleAndDescription) -> Seq<(Seq<char>, CellView)> {
    seq![
        ("cluster"@, CellView::Text(identifier)),
        ("name"@, CellView::Text(role.display_name@)),
        ("role"@, CellView::Text(role.role.name@)),
        ("bucket"@, CellView::Text(text_or_empty(role.role.bucket))),
        ("scope"@, CellView::Text(text_or_empty(role.role.scope))),
        ("collection"@, CellView::Text(text_or_empty(role.role.collection))),
        ("description"@, CellView::Text(role.description@)),
    ]
}

/// The rows that show `roles` of cluster `identifier`, in order.
pub open spec fn role_rows(identifier: Seq<char>, roles: Seq<RoleAndDescription>) -> Seq<Seq<(Seq<char>, CellView)>> {
    roles.map_values(|r: RoleAndDescription| role_row(identifier, r))
}

/// No two columns of a role's row have the same name, so a shell dictionary
/// built from the row column by column keeps every column.
pub proof fn law_role_row_columns_distinct(identifier: Seq<char>, role: RoleAndDescription)
    ensures
        columns_unique(role_row(identifier, role)),
        role_row(identifier, role).len() == 7,
{
    reveal_strlit("cluster");
    reveal_strlit("name");
    reveal_strlit("role");
    reveal_strlit("bucket");
    reveal_strlit("scope");
    reveal_strlit("collection");
    reveal_strlit("description");
    assert("cluster"@.len() == 7 && "name"@.len() == 4 && "role"@.len() == 4);
    assert("bucket"@.len() == 6 && "scope"@.len() == 5 && "collection"@.len() == 10);
    assert("description"@.len() == 11);
    assert("name"@[0] == 'n' && "role"@[0] == 'r');
}

/// The row of a role shows, column by column: the cluster, the role's display
/// name, the role's name, the bucket, scope and collection it is limited to
/// (each empty when it has none), and its description.
pub proof fn law_role_row_columns(identifier: Seq<char>, role: RoleAndDescription)
    ensures
        role_row(identifier, role).len() == 7,
        role_row(identifier, role)[0] == ("cluster"@, CellView::Text(identifier)),
        role_row(identifier, role)[1] == ("name"@, CellView::Text(role.display_name@)),
        role_row(identifier, role)[2] == ("role"@, CellView::Text(role.role.name@)),
        role_row(identifier, role)[3] == ("bucket"@, CellView::Text(
            match role.role.bucket {
                Some(b) => b@,
                None => Seq::<char>::empty(),
            },
        )),
        role_row(identifier, role)[4] == ("scope"@, CellView::Text(
            match role.role.scope {
                Some(s) => s@,
                None => Seq::<char>::empty(),
            },
        )),
        role_row(identifier, role)[5] == ("collection"@, CellView::Text(
            match role.role.collection {
                Some(c) => c@,
                None => Seq::<char>::empty(),
            },
        )),
        role_row(identifier, role)[6] == ("description"@, CellView::Text(role.description@)),
{
}

/// A cluster's roles give one row each, in the order the cluster listed them.
pub proof fn law_role_rows_follow_roles(identifier: Seq<char>, roles: Seq<RoleAndDescription>)
    ensures
        role_rows(identifier, roles).len() == roles.len(),
        forall|i: int| 0 <= i < roles.len() ==> #[trigger] role_rows(identifier, roles)[i] == role_row(identifier, roles[i]),
{
}

/// The row that shows `role` of cluster `identifier`.
pub fn make_role_row(identifier: &String, role: RoleAndDescription) -> (row: Row)
    ensures
        row@ == role_row(identifier@, role),
        row@.len() == 7,
        row@[0] == ("cluster"@, CellView::Text(identifier@)),
        row@[1] == ("name"@, CellView::Text(role.display_name@)),
        row@[2] == ("role"@, CellView::Text(role.role.name@)),
        row@[3] == ("bucket"@, CellView::Text(
            match role.role.bucket {
                Some(b) => b@,
                None => Seq::<char>::empty(),
            },
        )),
        row@[4] == ("scope"@, CellView::Text(
            match role.role.scope {
                Some(s) => s@,
                None => Seq::<char>::empty(),
            },
        )),
        row@[5] == ("collection"@, CellView::Text(
            match role.role.collection {
                Some(c) => c@,
                None => Seq::<char>::empty(),
            },
        )),
        row@[6] == ("description"@, CellView::Text(role.description@)),
{
    let ghost target = role_row(identifier@, role);
    let ghost r = role;
    proof {
        law_role_row_columns_distinct(identifier@, role);
    }
    let RoleAndDescription { role, display_name, description } = role;
    let Role { name, bucket, scope, collection } = role;
    let mut row = Row::new();
    assert(row@ =~= target.take(0));
    proof { lemma_row_insert_next(target, 0); }
    row.insert("cluster", Cell::Text(identifier.clone()));
    proof { lemma_row_insert_next(target, 1); }
    row.insert("name", Cell::Text(display_name));
    proof { lemma_row_insert_next(target, 2); }
    row.insert("role", Cell::Text(name));
    proof { lemma_row_insert_next(target, 3); }
    row.insert("bucket", Cell::Text(unwrap_or_empty(bucket)));
    proof { lemma_row_insert_next(target, 4); }
    row.insert("scope", Cell::Text(unwrap_or_empty(scope)));
    proof { lemma_row_insert_next(target, 5); }
    row.insert("collection", Cell::Text(unwrap_or_empty(collection)));
    proof { lemma_row_insert_next(target, 6); }
    row.insert("description", Cell::Text(description));
    assert(target.take(7) =~= target);
    proof {
        law_role_row_columns(identifier@, r);
    }
    row
}

impl UsersRolesRun {
    /// The sweep over the clusters.
    pub closed spec fn sweep(self) -> Sweep {
        self.sweep
    }

    /// The permission the roles are filtered by, if any.
    pub closed spec fn permission(self) -> Option<String> {
        self.permission
    }

    /// The rows collected so far.
    pub closed spec fn rows(self) -> Seq<Seq<(Seq<char>, CellView)>> {
        self.rows@.map_values(|r: Row| r@)
    }

    /// Takes the roles that the current cluster listed: adds one row per role,
    /// in order, and moves on to the next cluster; or, when the list could not
    /// be decoded, fails with the decoder's message. Once every cluster has
    /// been dealt with, a list changes nothing.
    pub fn on_decoded(&mut self, decoded: Result<Vec<RoleAndDescription>, String>) -> (r: Result<(), CommandError>)
        ensures
            final(self).sweep().ids() == old(self).sweep().ids(),
            final(self).permission() == old(self).permission(),
            match decoded {
                Err(message) => {
                    &&& r matches Err(e)
                    &&& e.reason@ == "Failed to decode response body "@ + message@
                    &&& final(self).sweep().pos() == old(self).sweep().pos()
                    &&& final(self).rows() == old(self).rows()
                },
                Ok(roles) => {
                    &&& r is Ok
                    &&& old(self).sweep().finished() ==> final(self).sweep().pos() == old(self).sweep().pos()
                        && final(self).rows() == old(self).rows()
                    &&& !old(self).sweep().finished() ==> final(self).sweep().pos() == old(self).sweep().pos() + 1
                        && final(self).rows() == old(self).rows() + role_rows(
                            old(self).sweep().ids()[old(self).sweep().pos()],
                            roles@,
                        )
                },
            },
    {
        let roles = match decoded {
            Err(message) => {
                let reason = String::from_str("Failed to decode response body ").concat(message.as_str());
                return Err(CommandError { reason });
            },
            Ok(roles) => roles,
        };
        self.take_roles(roles);
        Ok(())
    }

    /// Adds one row per role of the current cluster and moves on to the next.
    fn take_roles(&mut self, roles: Vec<RoleAndDescription>)
        ensures
            final(self).sweep().ids() == old(self).sweep().ids(),
            final(self).permission() == old(self).permission(),
            old(self).sweep().finished() ==> final(self).sweep().pos() == old(self).sweep().pos()
                && final(self).rows() == old(self).rows(),
            !old(self).sweep().finished() ==> final(self).sweep().pos() == old(self).sweep().pos() + 1
                && final(self).rows() == old(self).rows() + role_rows(
                    old(self).sweep().ids()[old(self).sweep().pos()],
                    roles@,
                ),
    {
        match self.sweep.current() {
            None => {},
            Some(id) => {
                let identifier = id.clone();
                let ghost old_rows = self.rows@.map_values(|r: Row| r@);
                let ghost all = roles@;
                let ghost sweep0 = self.sweep;
                let ghost permission0 = self.permission;
                let mut roles = roles;
                let n: usize = roles.len();
                let mut k: usize = 0;
                while k < n
                    invariant
                        n == all.len(),
                        roles@ == all.skip(k as int),
                        self.sweep == sweep0,
                        self.permission == permission0,
                        0 <= k <= n,
                        self.rows@.map_values(|r: Row| r@)
                            == old_rows + role_rows(identifier@, all.take(k as int)),
                    decreases n - k,
                {
                    let role = roles.remove(0);
                    let row = make_role_row(&identifier, role);
                    let ghost before = self.rows@;
                    self.rows.push(row);
                    proof {
                        assert(role == all[k as int]);
                        assert(all.take(k + 1) =~= all.take(k as int).push(all[k as int]));
                        assert(self.rows@ == before.push(row));
                        assert(self.rows@.map_values(|r: Row| r@) =~= before.map_values(|r: Row| r@).push(row@));
                        assert(role_rows(identifier@, all.take(k + 1)) =~= role_rows(identifier@, all.take(k as int)).push(row@));
                        assert(roles@ =~= all.skip(k + 1));
                    }
                    k = k + 1;
                }
                proof {
                    assert(all.take(n as int) =~= all);
                }
                self.sweep.advance();
            },
        }
    }

    /// The rows, one per role of each cluster dealt with, cluster by cluster.
    pub fn into_rows(self) -> (r: Vec<Row>)
        ensures
            r@.map_values(|row: Row| row@) == self.rows(),
    {
        self.rows
    }
}

impl UsersRoles {
    /// The registry the command works on.
    pub closed spec fn registry(self) -> State {
        *self.state
    }

    /// The command, working on `state`.
    pub fn new(state: Arc<State>) -> (c: Self)
        ensures
            c.registry() == *state,
    {
        Self { state }
    }

    /// The registry the command works on.
    pub fn state(&self) -> (r: &Arc<State>)
        ensures
            **r == self.registry(),
    {
        &self.state
    }

    /// The name the command is called by.
    pub fn name(&self) -> (r: &'static str)
        ensures
            r@ == "users roles"@,
    {
        "users roles"
    }

    /// The parameters of the command: the clusters to contact, and a
    /// permission to filter the roles by, both by name.
    pub fn signature(&self) -> (s: Signature)
        ensures
            s@ == (SignatureView {
                name: "users roles"@,
                required: seq![],
                named: seq![
                    ("clusters"@, SyntaxShape::String, "the clusters which should be contacted"@, None::<char>),
                    ("permission"@, SyntaxShape::String, "filter roles based on the permission string"@, None::<char>),
                ],
            }),
    {
        let mut named: Vec<NamedArg> = Vec::new();
        named.push(NamedArg::string("clusters", "the clusters which should be contacted"));
        named.push(NamedArg::string("permission", "filter roles based on the permission string"));
        let s = Signature { name: String::from_str("users roles"), required: Vec::new(), named };
        assert(s@.required =~= seq![]);
        assert(s@.named =~= seq![
            ("clusters"@, SyntaxShape::String, "the clusters which should be contacted"@, None::<char>),
            ("permission"@, SyntaxShape::String, "filter roles based on the permission string"@, None::<char>),
        ]);
        s
    }

    /// What the command says it does.
    pub fn usage(&self) -> (r: &'static str)
        ensures
            r@ == "Shows all roles available on the cluster"@,
    {
        "Shows all roles available on the cluster"
    }

    /// A sweep over `identifiers`, the clusters the call addresses, asking for
    /// the roles that `permission` selects, with no row yet.
    pub fn start(&self, identifiers: Vec<String>, permission: Option<String>) -> (run: UsersRolesRun)
        ensures
            run.sweep().ids() == identifiers@.map_values(|i: String| i@),
            run.sweep().pos() == 0,
            run.permission() == permission,
            run.rows() == Seq::<Seq<(Seq<char>, CellView)>>::empty(),
    {
        let run = UsersRolesRun { sweep: Sweep::new(identifiers), permission, rows: Vec::new() };
        assert(run.rows() =~= Seq::<Seq<(Seq<char>, CellView)>>::empty());
        run
    }

    /// What to do next: ask the current cluster for its roles, fail on a
    /// cluster the registry does not know, or stop when every cluster has answered.
    pub fn next_step(&self, run: &UsersRolesRun) -> (step: UsersRolesStep)
        ensures
            ({
                let ids = run.sweep().ids();
                let pos = run.sweep().pos();
                let clusters = self.registry()@.clusters;
                match step {
                    UsersRolesStep::Done => run.sweep().finished(),
                    UsersRolesStep::Fail(e) => {
                        &&& !run.sweep().finished()
                        &&& !clusters.dom().contains(ids[pos])
                        &&& e.reason@ == "Cluster not found"@
                    },
                    UsersRolesStep::Request { identifier, request, timeout_ms } => {
                        &&& !run.sweep().finished()
                        &&& clusters.dom().contains(ids[pos])
                        &&& identifier@ == ids[pos]
                        &&& request == (ManagementRequest::GetRoles { permission: run.permission() })
                        &&& timeout_ms == clusters[ids[pos]].query_timeout_ms
                    },
                }
            }),
    {
        match run.sweep.current() {
            None => UsersRolesStep::Done,
            Some(id) => match self.state.cluster(id) {
                None => UsersRolesStep::Fail(CommandError::runtime("Cluster not found")),
                Some(c) => UsersRolesStep::Request {
                    identifier: id.clone(),
                    request: ManagementRequest::GetRoles { permission: clone_optional(&run.permission) },
                    timeout_ms: c.query_timeout_ms,
                },
            },
        }
    }

    /// What the answer of a cluster leads to: a body to decode when the
    /// status is 200, and otherwise the failure of the whole command, with
    /// the body in its reason.
    pub fn check_response(status: u16, content: String) -> (r: Result<String, CommandError>)
        ensures
            status == 200 ==> r == Ok::<String, CommandError>(content),
            status != 200 ==> (r matches Err(e) && e.reason@ == "Request failed "@ + content@),
    {
        if status == 200 {
            Ok(content)
        } else {
            let reason = String::from_str("Request failed ").concat(content.as_str());
            Err(CommandError { reason })
        }
    }
}

} // verus!
