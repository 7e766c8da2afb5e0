[package]
name = "transaction_monitor"
version = "0.1.0"
edition = "2021"
publish = false

[dependencies]
uuid = { version = "1", features = ["v4"] }
anyhow = "1"
tokio = { version = "1", features = ["macros", "rt-multi-thread", "time", "sync"] }
futures-util = "0.3"
ethers-core = "2"
ethers-providers = "2"
ethers-signers = "2"
ethers-middleware = "2"
axum = "0.6"
serde = { version = "1", features = ["derive"] }
thiserror = "1"
tracing = "0.1"
hex = { version = "0.4", features = ["serde"] }
