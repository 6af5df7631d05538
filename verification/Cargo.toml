[package]
name = "af-transaction-api"
version = "0.1.0"
edition = "2021"
publish = false

[dependencies]
anyhow = "1"
bcs = "0.1"
clap = { version = "4", features = ["derive"] }
jsonrpsee = { version = "0.26", features = ["client-core"] }
move-core-types = "0.0.3"
serde = { version = "1", features = ["derive"] }
sui-transaction-builder = { version = "0.4", default-features = false }
