[package]
name = "modu_tool"
version = "0.1.0"
edition = "2021"
publish = false

[dependencies]
rumqttc = { version = "0.24", default-features = false }
tokio = { version = "1", features = ["rt-multi-thread", "macros", "sync", "time"] }
serde = { version = "1", features = ["derive"] }
serde_json = "1"
serialport = { version = "4", default-features = false }
open = "5"
