[package]
name = "chain_sync"
version = "0.1.0"
edition = "2021"
publish = false

[dependencies]
alloy-primitives = { version = "*", default-features = false, features = ["std"] }
alloy-eips = { version = "*", default-features = false, features = ["std"] }
jsonrpsee = { version = "*", features = ["server"] }
futures = "*"
pin-project = "*"
thiserror = "*"
tower = "*"
http = "*"
