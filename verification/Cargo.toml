[package]
name = "authflow"
version = "0.1.0"
edition = "2021"
publish = false

[dependencies]
tokio = { version = "1", features = ["rt", "sync", "time", "macros"] }
uuid = "1"
chrono = "0.4"
