[package]
name = "akagi"
version = "0.1.0"
edition = "2021"
publish = false

[dependencies]
anyhow = "1"
async-stream = "0.3"
axum = { version = "0.8", features = ["multipart"] }
chromiumoxide = "*"
chrono = "0.4"
clap = { version = "4", features = ["derive"] }
futures-util = "0.3"
opener = "*"
png = "0.18"
rand = "*"
riichienv-core = "*"
self-replace = "1"
serde = { version = "1", features = ["derive"] }
serde_json = "1"
tempfile = "3"
tokio = { version = "1", features = ["full"] }
tower-http = { version = "0.6", features = ["fs"] }
tracing = "0.1"
