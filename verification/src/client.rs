//! The requests that commands ask a cluster's management service to serve.

use vstd::prelude::*;

verus! {

/// A request to a cluster's management service.
#[derive(Debug, PartialEq, Eq)]
pub enum ManagementRequest {
    /// The configuration of one bucket.
    GetBucket { name: String },
    /// The settings of every bucket.
    GetBuckets,
    /// The roles the cluster offers, filtered by a permission when one is given.
    GetRoles { permission: Option<String> },
    /// The roles and domain of the connected user.
    Whoami,
}

/// A management request with the time it may take, in milliseconds.
#[derive(Debug, PartialEq, Eq)]
pub struct ManagementCall {
    pub request: ManagementRequest,
    pub timeout_ms: u64,
}

/// A request to a cluster's analytics service.
#[derive(Debug, PartialEq, Eq)]
pub enum AnalyticsQueryRequest {
    /// Runs `statement`, in `(bucket, scope)` when both are known.
    Execute { statement: String, scope: Option<(String, String)> },
}

/// A raw call to a cluster's management service: an HTTP method on a path,
/// with an optional body.
#[derive(Debug, PartialEq, Eq)]
pub struct GenericRequest {
    pub path: String,
    pub method: String,
    pub payload: Option<String>,
}

/// A copy of `o`.
pub fn clone_optional(o: &Option<String>) -> (r: Option<String>)
    ensures
        r == *o,
{
    match o {
        Some(s) => Some(s.clone()),
        None => None,
    }
}

} // verus!
