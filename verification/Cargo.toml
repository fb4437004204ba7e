[package]
name = "key_relay"
version = "0.1.0"
edition = "2021"
publish = false

[dependencies]
device_query = "*"
futures-util = { version = "*", features = ["sink"] }
tokio = { version = "*", features = ["macros", "net", "rt-multi-thread", "sync", "time"] }
tokio-tungstenite = "*"
