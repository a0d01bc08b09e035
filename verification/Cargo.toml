[package]
name = "voip_common"
version = "0.1.0"
edition = "2021"
publish = false

[dependencies]
anyhow = "1"
async-nats = "*"
async-trait = "0.1"
axum = "*"
bincode = "1.3"
bytes = "1"
chrono = { version = "0.4", features = ["serde"] }
futures-util = "0.3"
hostname = "*"
prometheus = "0.13"
prost = "*"
redis = { version = "*", default-features = false }
serde = { version = "1", features = ["derive"] }
serde_json = "1"
sqlx = { version = "*", default-features = false }
thiserror = "1"
tokio = { version = "1", features = ["macros", "net", "rt-multi-thread", "signal", "sync", "time"] }
tonic = { version = "*", default-features = false }
tracing = "0.1"
tracing-subscriber = { version = "0.3", features = ["env-filter", "json", "time"] }
uuid = { version = "1", features = ["v4", "serde"] }
