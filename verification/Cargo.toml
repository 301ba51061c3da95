[package]
name = "partition_interpreter"
version = "0.1.0"
edition = "2021"
publish = false

[dependencies]
anyhow = "1"
bytes = "=1.12.1"
futures = "0.3"
tokio = { version = "1", features = ["macros", "rt", "sync"] }
tracing = "0.1"
uuid = { version = "1", features = ["v4", "v7"] }
