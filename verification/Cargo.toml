[package]
name = "beacon_node"
version = "0.1.0"
edition = "2021"
publish = false

[dependencies]
ldk-node = "0.6"
tokio = { version = "1", features = ["sync", "rt", "rt-multi-thread", "macros"] }
log = "0.4"

[dev-dependencies]
tempfile = "3"
