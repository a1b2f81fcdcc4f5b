[package]
name = "arti-bench"
version = "0.1.0"
edition = "2021"
publish = false

[dependencies]
anyhow = "=1.0.104"
clap = "=2.34.0"
futures = "=0.3.34"
rand = "=0.8.8"
serde = { version = "=1.0.229", features = ["derive"] }
serde_json = "=1.0.154"
tokio = { version = "=1.54.1", features = ["full"] }
tokio-socks = "=0.5.3"
tracing = "=0.1.44"
tracing-subscriber = "=0.3.23"

[dev-dependencies]
float-ord = "=0.3.2"
