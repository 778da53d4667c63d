[package]
name = "rara_channels"
version = "0.1.0"
edition = "2021"
publish = false

[dependencies]
regex = "=1.13.1"
serde_json = "=1.0.154"
serde = { version = "=1.0.229", features = ["derive"] }
dashmap = "=6.2.1"
parking_lot = "=0.12.5"
tokio = { version = "=1.54.1", default-features = false, features = ["sync"] }
uuid = { version = "=1.29.0", features = ["v4"] }
rand = "=0.9.5"
chrono = "=0.4.45"
governor = "=0.10.4"
base64 = "0.22"
