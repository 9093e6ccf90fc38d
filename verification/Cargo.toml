[package]
name = "netstack"
version = "0.1.0"
edition = "2021"
publish = false

[dependencies]
bytes = "1"
futures = "0.3"
log = "0.4"
thiserror = "1"
tokio = { version = "1", features = ["sync", "io-util", "rt"] }
