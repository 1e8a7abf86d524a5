[package]
name = "block_replay"
version = "0.1.0"
edition = "2021"
publish = false

[dependencies]
serde = { version = "*", features = ["derive"] }
serde_json = "*"
serde_cbor = "*"
tokio = { version = "*", features = ["process", "rt"] }

[dev-dependencies]
alloy-primitives = "*"
ruint = "*"
