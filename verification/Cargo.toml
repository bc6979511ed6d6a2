[package]
name = "mikaboshi"
version = "0.1.0"
edition = "2021"
publish = false

[dependencies]
etherparse = "0.13"
rand = "0.8"
clap = { version = "4", features = ["derive", "env"] }
pcap = "*"
tokio = { version = "1", features = ["full"] }
tokio-stream = "*"
futures = "*"
axum = "*"
serde_json = "*"
maxminddb = "*"
tower-http = { version = "*", features = ["fs", "cors"] }
tracing-subscriber = "*"
