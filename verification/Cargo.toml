[package]
name = "openstack"
version = "0.1.0"
edition = "2021"
publish = false

[dependencies]
chrono = { version = "=0.4.45", features = ["serde"] }
futures = "=0.1.31"
hyper = "0.12"
hyper-rustls = "0.17"
log = "=0.4.34"
serde = { version = "=1.0.229", features = ["derive"] }
serde_json = "=1.0.154"
tokio-core = "=0.1.18"
