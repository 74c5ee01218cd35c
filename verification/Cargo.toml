[package]
name = "tx_simulator"
version = "0.1.0"
edition = "2021"
publish = false

[dependencies]
dashmap = "=5.5.3"
dotenvy = "=0.15.7"
ethers = { version = "=2.0.14", default-features = false }
revm = { version = "=3.3.0", default-features = false, features = ["std", "serde"] }
serde = { version = "=1.0.229", features = ["derive"] }
tokio = { version = "=1.54.1", features = ["sync"] }
uuid = { version = "=1.29.0", features = ["v4", "serde"] }
warp = { version = "=0.3.7", default-features = false }
