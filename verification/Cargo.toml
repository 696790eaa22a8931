[package]
name = "transfer_progress"
version = "0.1.0"
edition = "2021"
publish = false

[dependencies]
futures = "0.3"
reqwest = { version = "0.10", features = ["stream"] }
tokio = { version = "0.2", features = ["io-util", "macros", "rt-threaded", "stream", "sync", "time"] }
tokio-util = { version = "0.3", features = ["compat"] }
