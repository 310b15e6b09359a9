[package]
name = "chat_relay"
version = "0.1.0"
edition = "2021"
publish = false

[dependencies]
tokio = { version = "1", features = ["rt-multi-thread", "macros", "sync", "io-util", "io-std"] }
tokio-stream = "0.1"
futures-util = "0.3"
tonic = "0.12"
prost = "0.13"
clap = { version = "4", features = ["derive"] }
colored = "2"
