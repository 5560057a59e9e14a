[package]
name = "address_miner"
version = "0.1.0"
edition = "2021"
publish = false

[dependencies]
alloy-primitives = "*"
rand = "0.8"
clap = { version = "4", features = ["derive"] }
spinners = "*"
