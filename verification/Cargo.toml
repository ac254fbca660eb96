[package]
name = "nodex"
version = "0.1.0"
edition = "2021"
publish = false

[dependencies]
anyhow = "=1.0.104"
arrayref = "=0.3.9"
chrono = { version = "=0.4.45", features = ["serde"] }
cuid = "=1.3.3"
didcomm-rs = { version = "=0.7.2", default-features = false, features = ["raw-crypto"] }
log = "=0.4.34"
serde = { version = "=1.0.229", features = ["derive"] }
serde_json = "=1.0.154"
thiserror = "=1.0.69"
tokio = { version = "=1.54.1", features = ["sync", "time"] }
x25519-dalek = "=1.2.0"
