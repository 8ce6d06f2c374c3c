[package]
name = "margined_engine"
version = "0.1.0"
edition = "2021"
publish = false

[dependencies]
sha3 = "0.10"
serde = { version = "1", features = ["derive"] }
cosmwasm-std = "1"
cosmwasm-storage = "1"
cw-storage-plus = "1"
