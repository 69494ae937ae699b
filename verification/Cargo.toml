[package]
name = "matrix_bridge_zulip"
version = "0.1.0"
edition = "2021"
publish = false

[dependencies]
anyhow = "1"
async-trait = "0.1"
base64 = "0.22"
chrono = "0.4"
clap = { version = "4", features = ["derive", "env"] }
diesel = { version = "2", features = ["postgres", "r2d2", "chrono"] }
futures = "0.3"
lru = "0.12"
matrix-bot-sdk = "*"
parking_lot = "0.12"
rand = "0.9"
reqwest = { version = "0.12", features = ["json", "multipart"] }
serde = { version = "1", features = ["derive"] }
serde_json = "1"
serde_yaml = "0.9"
thiserror = "1"
tokio = { version = "1", features = ["full"] }
tokio-tungstenite = "0.24"
tracing = "0.1"
url = "2"
