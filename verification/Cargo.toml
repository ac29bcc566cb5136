[package]
name = "ibeji_samples"
version = "0.1.0"
edition = "2021"
publish = false

[dependencies]
uuencode = "*"
serde = { version = "1", features = ["derive"] }
serde_derive = "1"
serde_json = "1"
tokio = { version = "1", features = ["macros", "rt-multi-thread", "time", "signal", "sync"] }
tonic = "*"
config = "*"
log = "0.4"
env_logger = "*"
uuid = { version = "1", features = ["v4"] }
rand = "0.8"
parking_lot = "0.12"
tokio-retry = "0.3"
tokio-stream = "0.1"
