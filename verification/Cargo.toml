[package]
name = "gear_connector"
version = "0.1.0"
edition = "2021"
publish = false

[dependencies]
bytes = "=1.12.1"
hex = "=0.4.3"
crossbeam-channel = "=0.5.17"
futures = "=0.3.34"
serde = { version = "=1.0.229", features = ["derive"] }
serde_json = "=1.0.154"
tokio = { version = "=1.54.1", features = ["rt-multi-thread", "net", "time", "sync"] }
tokio-util = { version = "=0.7.20", features = ["codec"] }
tracing = "=0.1.44"
tracing-subscriber = "=0.3.23"
once_cell = "=1.21.4"
zip = { version = "=0.6.6", default-features = false, features = ["deflate"] }
ipfs-api-backend-hyper = "=0.5.0"
