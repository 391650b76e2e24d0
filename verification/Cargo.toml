[package]
name = "synchronizer"
version = "0.1.0"
edition = "2021"
publish = false

[dependencies]
rand = "0.8"
rust-crypto = "0.2"
serde = { version = "1", features = ["derive"] }
serde_json = "1"
serde_yaml = "0.9"
rocket = "0.5"
mysql = "25"
ws = "0.9"
tokio = { version = "1", features = ["full"] }
colored = "2"
lazy_static = "1"
