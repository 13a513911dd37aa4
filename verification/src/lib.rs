//! The decision logic of a handful of shell commands that manage and query
//! Couchbase clusters: what each command declares, which request it sends to
//! which cluster, how it reacts to what comes back, and which rows it shows.
//!
//! Talking to the clusters, reading the shell's arguments and printing rows
//! happen around this crate; everything it decides is stated in contracts.

pub mod client;
pub mod state;
pub mod cli;
