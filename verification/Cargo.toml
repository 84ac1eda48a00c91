[package]
name = "proxy_core"
version = "0.1.0"
edition = "2021"
publish = false

[dependencies]
indexmap = "*"
tokio = { version = "*", features = ["io-util", "net", "rt", "time", "sync", "macros"] }
bytes = "*"
