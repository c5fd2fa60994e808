[package]
name = "native-ime"
version = "0.1.0"
edition = "2021"
publish = false

[dependencies]
anyhow = "1"
crossbeam-channel = "0.5"
env_logger = "0.11"
futures-util = "0.3"
log = "0.4"
tokio = { version = "1", features = ["rt-multi-thread", "macros", "sync", "time"] }
zbus = { version = "5", default-features = false, features = ["tokio"] }
