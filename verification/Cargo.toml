[package]
name = "llmd"
version = "0.1.0"
edition = "2021"
publish = false

[dependencies]
anyhow = "=1.0.104"
appium-client = { version = "=0.2.2", default-features = false, features = ["rustls-tls"] }
async-trait = "=0.1.92"
axum = "=0.7.9"
clap = { version = "=4.6.7", features = ["derive"] }
crossterm = "=0.28.1"
dirs = "=5.0.1"
futures-core = "=0.3.34"
futures-util = "=0.3.34"
jni = "=0.21.1"
litertlm-rs = "=0.16.3"
ratatui = "=0.29.0"
reqwest = { version = "=0.12.28", default-features = false, features = ["stream", "rustls-tls"] }
serde = { version = "=1.0.229", features = ["derive"] }
serde_json = "=1.0.154"
tempfile = "=3.27.0"
thiserror = "=1.0.69"
tokio = { version = "=1.54.1", features = ["full"] }
tokio-stream = "=0.1.19"
tower-http = { version = "=0.5.2", features = ["cors", "trace"] }
tracing = "=0.1.44"
tracing-subscriber = { version = "=0.3.23", features = ["env-filter"] }
uuid = { version = "=1.29.0", features = ["v4"] }
