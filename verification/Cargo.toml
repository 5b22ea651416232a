[package]
name = "tokio_smoltcp"
version = "0.1.0"
edition = "2021"
publish = false

[dependencies]
smoltcp = "=0.12.0"
futures = "=0.3.34"
tokio = { version = "=1.54.1", features = ["sync", "time", "rt", "io-util"] }
