[package]
name = "media_engine"
version = "0.1.0"
edition = "2021"
publish = false

[dependencies]
str0m = "*"
tokio = { version = "*", features = ["rt", "rt-multi-thread", "sync", "time", "net", "io-util", "macros"] }
tokio-tungstenite = "*"
futures-util = "*"
prost = "*"
livekit-protocol = "*"
serde = { version = "*", features = ["derive"] }
serde_json = "*"
