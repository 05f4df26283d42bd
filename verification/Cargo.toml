[package]
name = "tdfirehose"
version = "0.1.3"
edition = "2021"
publish = false

[dependencies]
chrono = "0.4"
chrono-tz = "0.8"
clap = "3"
csv = "1"
futures-util = "0.3"
serde = { version = "1", features = ["derive"] }
serde_derive = "1"
serde_json = "1"
time = "0.3"
tokio = { version = "1", features = ["full"] }
tokio-tungstenite = "0.21"
url = "2"
