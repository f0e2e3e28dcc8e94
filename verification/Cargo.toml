[package]
name = "event_engine"
version = "0.1.0"
edition = "2021"
publish = false

[dependencies]
uuid = { version = "1", features = ["v4"] }
zmq = "0.10"
thiserror = "1"
log = "0.4"
serde = { version = "1", features = ["derive"] }
toml = "0.8"
anyhow = "1"
lazy_static = "1"
