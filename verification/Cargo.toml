[package]
name = "nft_snipe"
version = "0.1.0"
edition = "2021"
publish = false

[dependencies]
near-sdk = { version = "*", features = ["unit-testing"] }
serde = { version = "*", features = ["derive"] }
serde_json = "*"
serde_with = "*"
