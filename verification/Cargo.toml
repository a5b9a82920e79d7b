[package]
name = "automation"
version = "0.1.0"
edition = "2021"
publish = false

[dependencies]
rumqttc = { version = "=0.24.0", default-features = false }
axum = "=0.8.9"
serde = { version = "=1.0.229", features = ["derive"] }
serde_json = "=1.0.154"
serde_repr = "=0.1.21"
tokio = { version = "=1.54.1", features = ["full"] }
reqwest = { version = "=0.12.28", default-features = false, features = ["json"] }
mlua = { version = "=0.10.5", features = ["lua54", "vendored", "async", "serialize", "send"] }
tracing = "=0.1.44"
tracing-subscriber = "=0.3.23"
anyhow = "=1.0.104"
thiserror = "=2.0.21"
bytes = "=1.12.1"
eui48 = "=1.1.0"
wakey = "=0.3.0"
uuid = { version = "=1.29.0", features = ["v4"] }
tokio-cron-scheduler = "=0.15.1"
futures = "=0.3.34"
async-trait = "=0.1.92"
dotenvy = "=0.15.7"
config = { version = "*", default-features = false, features = ["toml"] }
