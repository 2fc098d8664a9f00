[package]
name = "arti-mobile"
version = "0.1.0"
edition = "2021"
publish = false

[dependencies]
anyhow = "1"
async-std = "1"
futures = "0.3"
lazy_static = "1"
tor-config = "*"
tor-rtcompat = { version = "*", features = ["tokio", "native-tls"] }
tracing = "0.1"
tracing-subscriber = "0.3"
