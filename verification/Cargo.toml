[package]
name = "hbbs"
version = "0.1.0"
edition = "2021"
publish = false

[dependencies]
anyhow = "1"
async-trait = "0.1"
axum = "0.5"
base64 = "0.13"
chrono = "0.4"
deadpool = "0.8"
flexi_logger = "0.22"
ipnetwork = { version = "0.20", default-features = false }
local-ip-address = "0.5"
log = "0.4"
rand = "0.8"
serde = { version = "1", features = ["derive"] }
serde_json = "1"
sodiumoxide = "0.2"
sqlx = { version = "0.6", default-features = false, features = ["sqlite", "runtime-tokio-rustls"] }
tokio = { version = "1", features = ["full"] }
tokio-tungstenite = "0.17"
tungstenite = "0.17"
uuid = { version = "1", features = ["v4"] }
