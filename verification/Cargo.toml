[package]
name = "datastorers"
version = "0.1.0"
edition = "2021"
publish = false

[dependencies]
chrono = "=0.4.45"
radix64 = "=0.6.2"
google-datastore1 = "*"
tokio = { version = "=1.53.2", features = ["rt-multi-thread", "macros"] }
