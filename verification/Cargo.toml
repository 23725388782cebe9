[package]
name = "block_pipeline"
version = "0.1.0"
edition = "2021"
publish = false

[dependencies]
alloy-consensus = "~1.8"
alloy-eips = "~1.8"
alloy-primitives = "~1.5"
alloy-sol-types = "~1.5"
bcs = "=0.1.6"
dashmap = "=6.1.0"
metrics = "=0.24.6"
metrics-derive = "=0.1.2"
once_cell = "1.19"
revm = { version = "=29.0.1", default-features = false, features = ["std"] }
revm-bytecode = "=6.2.2"
revm-database = "=7.0.5"
tracing = "0.1"
