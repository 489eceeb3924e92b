[package]
name = "ems"
version = "0.1.0"
edition = "2021"
publish = false

[dependencies]
anyhow = "1"
argh = "0.1"
async-stream = "0.3"
audiosocket = "*"
dashmap = "4"
deadqueue = "0.2"
flume = "0.10"
futures-util = { version = "0.3", features = ["sink"] }
once_cell = "1"
pin-project = "1"
prost = "0.7"
serde = { version = "1", features = ["derive"] }
serde_json = "1"
thiserror = "1"
tokio = { version = "1", features = ["full"] }
tokio-stream = { version = "0.1", features = ["time"] }
tokio-tungstenite = "0.14"
toml = "0.5"
tonic = { version = "0.4", features = ["transport", "tls", "prost"] }
tracing = "0.1"
tracing-subscriber = "0.2"
uuid = { version = "0.8", features = ["serde"] }
yup-oauth2 = "5"
