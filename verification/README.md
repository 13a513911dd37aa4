# couchbase_shell

The decision logic of the cluster-management commands of a Couchbase shell
(`analytics`, `buckets`, `buckets config`, `clusters rebalance`,
`users roles`, `whoami`), verified with Verus.

- `src/state.rs` — the registry of known clusters and the active one.
- `src/client.rs` — the requests a command asks a cluster to serve.
- `src/cli/shell.rs` — signatures, rows, JSON documents, runtime errors, and the
  sweep over the clusters a command addresses.
- `src/cli/*.rs` — one module per command: what it declares, which request it
  sends next, and how it takes what comes back.
- `app/lib.rs` — the shell side: conversions to and from the shell's types and
  the drivers that perform the calls the library decides on.
