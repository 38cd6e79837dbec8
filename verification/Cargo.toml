[package]
name = "reactive_graph"
version = "0.1.0"
edition = "2021"
publish = false

[dependencies]
uuid = { version = "*", features = ["v4"] }
serde_json = "*"
serde = { version = "*", features = ["derive"] }
dashmap = "*"
indradb-lib = "*"
async-graphql = "*"
