//! `analytics`: runs an analytics statement on the active cluster.

use std::sync::Arc;

use vstd::prelude::*;

use crate::cli::shell::{
    find_member, json_parse, json_parse_object, member, members_view, parse_json, parse_json_object,
    CommandError, JsonValue, NamedArg, PositionalArg, Signature, SignatureView, SyntaxShape,
};
use crate::client::{clone_optional, AnalyticsQueryRequest};
use crate::state::State;

verus! {

/// The `analytics` command.
pub struct Analytics {
    state: Arc<State>,
}

/// The query to send to the active cluster, with the time it may take in milliseconds.
#[derive(Debug, PartialEq, Eq)]
pub struct AnalyticsQuery {
    pub request: AnalyticsQueryRequest,
    pub timeout_ms: u64,
}

/// The bucket a query runs against: the one named in the call, else the
/// active cluster's active bucket, if any.
pub open spec fn effective_bucket(named: Option<String>, active: Option<String>) -> Option<String> {
    match named {
        Some(b) => Some(b),
        None => active,
    }
}

/// The scope a query runs in: a bucket and a scope when both are known, else none.
pub open spec fn query_scope(bucket: Option<String>, scope: Option<String>) -> Option<(String, String)> {
    match (bucket, scope) {
        (Some(b), Some(s)) => Some((b, s)),
        _ => None,
    }
}

/// The member that holds what an answer reports: `errors` when the answer
/// has it, else `results`.
pub open spec fn reported(content: Seq<(Seq<char>, JsonValue)>) -> Option<JsonValue> {
    if member(content, "errors"@) is Some {
        member(content, "errors"@)
    } else {
        member(content, "results"@)
    }
}

/// What an answer reports is a list.
pub open spec fn reports_list(content: Seq<(Seq<char>, JsonValue)>) -> bool {
    reported(content) matches Some(JsonValue::Array(_))
}

/// What an answer reports is found by name: the member `errors` whenever the
/// answer has one, whether or not it also has `results`; otherwise the member
/// `results`, if any.
pub proof fn law_errors_reported_before_results(content: Seq<(Seq<char>, JsonValue)>)
    ensures
        member(content, "errors"@) is Some ==> reported(content) == member(content, "errors"@),
        member(content, "errors"@) is None ==> reported(content) == member(content, "results"@),
        forall|v: Vec<JsonValue>|
            member(content, "errors"@) == Some(JsonValue::Array(v)) ==> #[trigger] reports_list(content)
                && reported(content) == Some(JsonValue::Array(v)),
{
}

/// A bucket and a scope named in the call are the ones the query runs in,
/// whatever the active cluster's active bucket is; without a named bucket the
/// active bucket stands in; without a scope, or without any bucket, the query
/// runs in none.
pub proof fn law_named_bucket_and_scope_are_used(
    named: Option<String>,
    active: Option<String>,
    scope: Option<String>,
)
    ensures
        forall|b: String| named == Some(b) ==> #[trigger] effective_bucket(Some(b), active) == Some(b),
        named is None ==> effective_bucket(named, active) == active,
        forall|b: String, s: String|
            named == Some(b) && scope == Some(s)
                ==> #[trigger] query_scope(effective_bucket(named, active), scope) == Some((b, s)),
        scope is None ==> query_scope(effective_bucket(named, active), scope) is None,
        named is None && active is None ==> query_scope(effective_bucket(named, active), scope) is None,
        forall|a: String, s: String|
            named is None && active == Some(a) && scope == Some(s)
                ==> #[trigger] query_scope(effective_bucket(named, active), scope) == Some((a, s)),
{
}

/// The values an answer without metadata shows: the list under `errors` when
/// the answer has that member, else the list under `results`.
pub fn reported_values(content: Vec<(String, JsonValue)>) -> (values: Vec<JsonValue>)
    requires
        reports_list(members_view(content@)),
    ensures
        reported(members_view(content@)) == Some(JsonValue::Array(values)),
{
    let mut content = content;
    let i: usize = match find_member(&content, "errors") {
        Some(i) => i,
        None => match find_member(&content, "results") {
            Some(i) => i,
            None => {
                return Vec::new();
            },
        },
    };
    let (_, value) = content.remove(i);
    match value {
        JsonValue::Array(values) => values,
        _ => Vec::new(),
    }
}

/// Whether what an answer reports is a list.
pub fn lists_report(content: &Vec<(String, JsonValue)>) -> (r: bool)
    ensures
        r == reports_list(members_view(content@)),
{
    let i: usize = match find_member(content, "errors") {
        Some(i) => i,
        None => match find_member(content, "results") {
            Some(i) => i,
            None => {
                return false;
            },
        },
    };
    match &content[i].1 {
        JsonValue::Array(_) => true,
        _ => false,
    }
}

impl Analytics {
    /// What the command shows of `content`, the body the cluster answered
    /// with: with `with_meta` the whole document; without, the list the
    /// answer reports. A body that does not parse (as a JSON object, without
    /// `with_meta`) fails the command with the parser's error.
    pub fn answer(content: &str, with_meta: bool) -> (r: Result<Vec<JsonValue>, CommandError>)
        requires
            !with_meta ==> (json_parse_object(content@) matches Ok(m) ==> reports_list(m)),
        ensures
            with_meta ==> match json_parse(content@) {
                Ok(v) => r matches Ok(values) && values@ == seq![v],
                Err(message) => r matches Err(e) && e.reason@ == message,
            },
            !with_meta ==> match json_parse_object(content@) {
                Ok(m) => r matches Ok(values) && reported(m) == Some(JsonValue::Array(values)),
                Err(message) => r matches Err(e) && e.reason@ == message,
            },
    {
        if with_meta {
            match parse_json(content) {
                Ok(v) => {
                    let mut values: Vec<JsonValue> = Vec::new();
                    values.push(v);
                    assert(values@ =~= seq![v]);
                    Ok(values)
                },
                Err(message) => Err(CommandError { reason: message }),
            }
        } else {
            match parse_json_object(content) {
                Ok(members) => Ok(reported_values(members)),
                Err(message) => Err(CommandError { reason: message }),
            }
        }
    }

    /// [`Self::answer`] where the command can show `content`, and nothing
    /// where it cannot: without `with_meta`, an object whose reported member
    /// is missing or is not a list.
    pub fn try_answer(content: &str, with_meta: bool) -> (r: Option<Result<Vec<JsonValue>, CommandError>>)
        ensures
            r is None <==> !with_meta && (json_parse_object(content@) matches Ok(m) && !reports_list(m)),
            r matches Some(a) ==> {
                &&& with_meta ==> match json_parse(content@) {
                    Ok(v) => a matches Ok(values) && values@ == seq![v],
                    Err(message) => a matches Err(e) && e.reason@ == message,
                }
                &&& !with_meta ==> match json_parse_object(content@) {
                    Ok(m) => a matches Ok(values) && reported(m) == Some(JsonValue::Array(values)),
                    Err(message) => a matches Err(e) && e.reason@ == message,
                }
            },
    {
        if !with_meta {
            if let Ok(members) = parse_json_object(content) {
                if !lists_report(&members) {
                    return None;
                }
            }
        }
        Some(Self::answer(content, with_meta))
    }

    /// The registry the command works on.
    pub closed spec fn registry(self) -> State {
        *self.state
    }

    /// The command, working on `state`.
    pub fn new(state: Arc<State>) -> (c: Self)
        ensures
            c.registry() == *state,
    {
        Self { state }
    }

    /// The registry the command works on.
    pub fn state(&self) -> (r: &Arc<State>)
        ensures
            **r == self.registry(),
    {
        &self.state
    }

    /// The name the command is called by.
    pub fn name(&self) -> (r: &'static str)
        ensures
            r@ == "analytics"@,
    {
        "analytics"
    }

    /// The parameters of the command: the statement, and by name the bucket
    /// and the scope to run it in.
    pub fn signature(&self) -> (s: Signature)
        ensures
            s@ == (SignatureView {
                name: "analytics"@,
                required: seq![("statement"@, SyntaxShape::String, "the analytics statement"@)],
                named: seq![
                    ("bucket"@, SyntaxShape::String, "the bucket to query against"@, None::<char>),
                    ("scope"@, SyntaxShape::String, "the scope to query against"@, None::<char>),
                ],
            }),
    {
        let mut required: Vec<PositionalArg> = Vec::new();
        required.push(PositionalArg::string("statement", "the analytics statement"));
        let mut named: Vec<NamedArg> = Vec::new();
        named.push(NamedArg::string("bucket", "the bucket to query against"));
        named.push(NamedArg::string("scope", "the scope to query against"));
        let s = Signature { name: String::from_str("analytics"), required, named };
        assert(s@.required =~= seq![("statement"@, SyntaxShape::String, "the analytics statement"@)]);
        assert(s@.named =~= seq![
            ("bucket"@, SyntaxShape::String, "the bucket to query against"@, None::<char>),
            ("scope"@, SyntaxShape::String, "the scope to query against"@, None::<char>),
        ]);
        s
    }

    /// What the command says it does.
    pub fn usage(&self) -> (r: &'static str)
        ensures
            r@ == "Performs an analytics query"@,
    {
        "Performs an analytics query"
    }

    /// The query for `statement`, given the bucket and the scope named in the
    /// call: it runs in a bucket and scope only when both are known, the
    /// bucket falling back to the active cluster's active bucket, and it may
    /// take the active cluster's query time.
    pub fn query(&self, statement: String, bucket: Option<String>, scope: Option<String>) -> (q: AnalyticsQuery)
        ensures
            ({
                let active = self.registry()@.clusters[self.registry()@.active];
                &&& q.request == (AnalyticsQueryRequest::Execute {
                    statement,
                    scope: query_scope(effective_bucket(bucket, active.active_bucket), scope),
                })
                &&& q.timeout_ms == active.query_timeout_ms
            }),
    {
        let active = self.state.active_cluster();
        let bucket = match bucket {
            Some(b) => Some(b),
            None => clone_optional(&active.active_bucket),
        };
        let scope = match (bucket, scope) {
            (Some(b), Some(s)) => Some((b, s)),
            _ => None,
        };
        AnalyticsQuery {
            request: AnalyticsQueryRequest::Execute { statement, scope },
            timeout_ms: active.query_timeout_ms,
        }
    }
}

} // verus!
