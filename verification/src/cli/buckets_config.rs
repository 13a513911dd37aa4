//! `buckets config`: the low-level configuration of one bucket.

use std::sync::Arc;

use vstd::prelude::*;

use crate::cli::shell::{json_parse, parse_json, CommandError, JsonValue, PositionalArg, Signature, SignatureView, SyntaxShape};
use crate::client::{ManagementCall, ManagementRequest};
use crate::state::State;

verus! {

/// The `buckets config` command.
pub struct BucketsConfig {
    state: Arc<State>,
}

impl BucketsConfig {
    /// The registry the command works on.
    pub closed spec fn registry(self) -> State {
        *self.state
    }

    /// The command, working on `state`.
    pub fn new(state: Arc<State>) -> (c: Self)
        ensures
            c.registry() == *state,
    {
        Self { state }
    }

    /// The registry the command works on.
    pub fn state(&self) -> (r: &Arc<State>)
        ensures
            **r == self.registry(),
    {
        &self.state
    }

    /// The name the command is called by.
    pub fn name(&self) -> (r: &'static str)
        ensures
            r@ == "buckets config"@,
    {
        "buckets config"
    }

    /// The parameters of the command: the name of the bucket.
    pub fn signature(&self) -> (s: Signature)
        ensures
            s@ == (SignatureView {
                name: "buckets config"@,
                required: seq![("name"@, SyntaxShape::String, "the name of the bucket"@)],
                named: seq![],
            }),
    {
        let mut required: Vec<PositionalArg> = Vec::new();
        required.push(PositionalArg::string("name", "the name of the bucket"));
        let s = Signature { name: String::from_str("buckets config"), required, named: Vec::new() };
        assert(s@.required =~= seq![("name"@, SyntaxShape::String, "the name of the bucket"@)]);
        assert(s@.named =~= seq![]);
        s
    }

    /// What the command says it does.
    pub fn usage(&self) -> (r: &'static str)
        ensures
            r@ == "Shows the bucket config (low level)"@,
    {
        "Shows the bucket config (low level)"
    }

    /// The configuration the command shows: `content`, the body the cluster
    /// answered with, parsed as JSON; a body that does not parse fails the
    /// command with the parser's error.
    pub fn answer(content: &str) -> (r: Result<JsonValue, CommandError>)
        ensures
            match json_parse(content@) {
                Ok(v) => r == Ok::<JsonValue, CommandError>(v),
                Err(message) => r matches Err(e) && e.reason@ == message,
            },
    {
        match parse_json(content) {
            Ok(v) => Ok(v),
            Err(message) => Err(CommandError { reason: message }),
        }
    }

    /// The request for the configuration of bucket `name`, sent to the active
    /// cluster within its query time; without a name the command fails.
    pub fn request(&self, name: Option<String>) -> (r: Result<ManagementCall, CommandError>)
        ensures
            ({
                let active = self.registry()@.clusters[self.registry()@.active];
                match name {
                    None => r matches Err(e) && e.reason@ == "No bucket name was specified"@,
                    Some(n) => r == Ok::<ManagementCall, CommandError>(ManagementCall {
                        request: ManagementRequest::GetBucket { name: n },
                        timeout_ms: active.query_timeout_ms,
                    }),
                }
            }),
    {
        match name {
            None => Err(CommandError::runtime("No bucket name was specified")),
            Some(n) => {
                let active = self.state.active_cluster();
                Ok(ManagementCall {
                    request: ManagementRequest::GetBucket { name: n },
                    timeout_ms: active.query_timeout_ms,
                })
            },
        }
    }
}

} // verus!
