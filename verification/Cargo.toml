[package]
name = "store"
version = "0.1.0"
edition = "2021"
publish = false

[dependencies]
anyhow = "1"
uuid = { version = "1", features = ["v4", "serde"] }
chrono = { version = "0.4", features = ["serde"] }
thiserror = "2"
serde = { version = "1", features = ["derive"] }
serde_json = "1"
bincode-next = { version = "*", features = ["serde"] }
tracing = "0.1"
tracing-subscriber = { version = "0.3", features = ["env-filter"] }
crossbeam-channel = "0.5"
tokio = { version = "1", features = ["rt-multi-thread", "time", "sync", "macros"] }
renet = "1"
renet_netcode = "1"
rdkafka = "*"
