[package]
name = "harf"
version = "0.1.0"
edition = "2021"
publish = false

[dependencies]
hyper = { version = "*", features = ["http1", "client"] }
hyper-util = { version = "*", features = ["client-legacy", "http1", "tokio"] }
http-body-util = "*"
tokio = { version = "*", features = ["rt-multi-thread", "net", "time", "macros"] }
futures = "*"
serde = "*"
serde_derive = "*"
serde_json = "*"
