[package]
name = "remote_uci"
version = "0.1.0"
edition = "2021"
publish = false

[dependencies]
log = "0.4"
tokio = { version = "1", features = ["io-util", "macros", "process", "rt-multi-thread"] }
