[package]
name = "dispenser"
version = "0.1.0"
edition = "2021"
publish = false

[dependencies]
rand = "*"
tokio = { version = "1", features = ["sync"] }
uuid = { version = "1", features = ["v4"] }
