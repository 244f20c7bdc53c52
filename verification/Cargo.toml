[package]
name = "op_pending_block"
version = "0.1.0"
edition = "2021"
publish = false

[dependencies]
alloy-primitives = { version = "=1.7.3", features = ["rand", "getrandom"] }
alloy-consensus = "=2.5.0"
alloy-eips = "=2.5.0"
op-alloy-consensus = "=2.0.0"
tokio = { version = "=1.53.2", features = ["sync"] }
