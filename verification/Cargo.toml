[package]
name = "autogen_rs"
version = "0.1.0"
edition = "2021"
publish = false

[dependencies]
tokio = { version = "1", features = ["sync", "rt", "rt-multi-thread", "time"] }
uuid = { version = "1", features = ["v4"] }
thiserror = "1"
tracing = "0.1"
