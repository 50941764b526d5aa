[package]
name = "flwr"
version = "0.1.0"
edition = "2021"
publish = false

[dependencies]
tokio = { version = "1", features = ["macros", "rt-multi-thread", "time", "sync"] }
tonic = "*"
bytes = "1"
http = "1"
