[package]
name = "shuidui"
version = "0.1.0"
edition = "2021"
publish = false

[dependencies]
prometheus = "0.13"
lazy_static = "1"
tokio = { version = "1", features = ["full"] }
warp = { version = "0.3", features = ["compression", "websocket"] }
rumqttc = "0.24"
clickhouse = "0.12"
serde = { version = "1", features = ["derive"] }
serde_json = "1"
chrono = { version = "0.4", features = ["serde"] }
uuid = { version = "1", features = ["v4", "serde"] }
tracing = "0.1"
tracing-subscriber = { version = "0.3", features = ["env-filter", "json"] }
log = "0.4"
parking_lot = "0.12"
futures-util = { version = "0.3", features = ["sink"] }
thiserror = "1"
