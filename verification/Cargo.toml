[package]
name = "couchbase_shell"
version = "0.1.0"
edition = "2021"
publish = false

[dependencies]
serde = { version = "1", features = ["derive"] }
serde_json = "1"
nu-protocol = "0.44"
nu-source = "0.44"
nu-errors = "0.44"
nu-stream = "0.44"
tokio = { version = "1", features = ["time"] }
futures = "0.3"
async-trait = "0.1"
