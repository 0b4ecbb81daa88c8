[package]
name = "multicall"
version = "0.1.0"
edition = "2021"
publish = false

[dependencies]
parking_lot = "*"
alloy-contract = "*"
alloy-network = "*"
alloy-primitives = "*"
alloy-provider = { version = "*", default-features = false }
alloy-sol-types = "*"
alloy-transport = "*"
tokio = { version = "*", features = ["rt", "sync", "time"] }
