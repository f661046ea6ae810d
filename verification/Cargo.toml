[package]
name = "radarflow"
version = "0.1.0"
edition = "2021"
publish = false

[dependencies]
anyhow = "1"
axum = "0.6"
clap = { version = "4", features = ["derive"] }
futures-util = { version = "0.3", features = ["sink"] }
local-ip-address = "0.5"
log = "0.4"
memflow = "0.2"
reqwest = { version = "0.11", default-features = false, features = ["blocking", "rustls-tls"] }
serde = { version = "1", features = ["derive"] }
serde_json = "1"
simple_logger = "4"
tokio = { version = "1", features = ["full"] }
tokio-timerfd = "0.2"
tokio-tungstenite = "0.20"
toml = "0.7"
tower-http = { version = "0.4", features = ["fs"] }
