[package]
name = "ruuvi_data_forwarder_rs"
version = "0.1.0"
edition = "2021"
publish = false

[dependencies]
async-trait = "0.1"
config = { version = "=0.15.27", default-features = false, features = ["toml"] }
duckdb = "=1.4.5"
futures = "0.3"
regex = "=1.13.1"
serde = { version = "1", features = ["derive"] }
serde_json = "1"
thiserror = "2"
tokio = { version = "=1.54.1", features = ["full"] }
tokio-stream = "0.1"
tokio-util = { version = "=0.7.20", features = ["codec"] }
tracing = "0.1"
tracing-subscriber = { version = "0.3", features = ["env-filter"] }
