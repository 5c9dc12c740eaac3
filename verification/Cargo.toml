[package]
name = "rarity_cache"
version = "0.1.0"
edition = "2021"
publish = false

[dependencies]
dashmap = "6"
futures-util = "0.3"
serde = { version = "1", features = ["derive"] }
serde_cbor = "0.11"
twilight-model = "0.2"
