[package]
name = "tmtc_linux_ground"
version = "0.1.0"
edition = "2021"
publish = false

[dependencies]
async-nats = "*"
simple_config = "*"
tokio = { version = "*", features = ["rt-multi-thread", "macros", "time", "sync", "io-util"] }
tokio-serial = "*"
