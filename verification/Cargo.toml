[package]
name = "ne4_konfig"
version = "0.1.0"
edition = "2021"
publish = false

[dependencies]
env_logger = "*"
futures = "0.3"
log = "0.4"
tokio = { version = "1", features = ["rt", "rt-multi-thread", "sync", "time"] }
tokio-modbus = { version = "*", default-features = false, features = ["rtu"] }
tokio-serial = { version = "*", default-features = false }
