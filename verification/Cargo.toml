[package]
name = "rustratify"
version = "0.1.0"
edition = "2021"
publish = false

[dependencies]
tokio = { version = "*", default-features = false, features = ["sync"] }
tokio-stream = { version = "*", default-features = false }
futures-core = "*"

[dev-dependencies]
futures = "*"
