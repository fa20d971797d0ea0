[package]
name = "tibrv"
version = "0.1.0"
edition = "2021"
publish = false

[dependencies]
chrono = "0.4"
futures = "0.1"
mio = "0.6"
tokio = "0.1"
