[package]
name = "exchange_feed"
version = "0.1.0"
edition = "2021"
publish = false

[dependencies]
async-trait = "0.1"
futures = "0.3"
nix = { version = "*", features = ["sched", "process", "feature"] }
serde = { version = "1", features = ["derive"] }
serde_json = "1"
tokio = { version = "1", features = ["rt", "net", "time", "macros"] }
tokio-tungstenite = "*"
toml = "*"
tracing = "0.1"
