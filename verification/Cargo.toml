[package]
name = "lancedb_kmp"
version = "0.1.0"
edition = "2021"
publish = false

[dependencies]
arrow-array = "*"
arrow-schema = "*"
futures = "*"
serde = { version = "1", features = ["derive"] }
serde_json = "1"
thiserror = "*"
uniffi = "=0.28.3"
