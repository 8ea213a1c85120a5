[package]
name = "chibi_core"
version = "0.1.0"
edition = "2021"
publish = false

[dependencies]
serde = { version = "=1.0.229", features = ["derive"] }
serde_json = "=1.0.154"
regex = "=1.13.1"
uuid = { version = "=1.29.0", features = ["v4"] }
indexmap = "=2.14.2"
chrono = "=0.4.45"
ignore = "0.4"
dirs-next = "2"
futures-util = "0.3"
tokio = { version = "1", features = ["rt", "time"] }
reqwest = { version = "0.12", default-features = false, features = ["stream"] }
