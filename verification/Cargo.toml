[package]
name = "vnox_ui"
version = "0.1.0"
edition = "2021"
publish = false

[dependencies]
uuid = { version = "=1.29.0", features = ["v4"] }
dirs = "=7.0.0"
tokio = { version = "1", features = ["rt"] }
