[package]
name = "ipc_endpoint"
version = "0.1.0"
edition = "2021"
publish = false

[dependencies]
futures = "*"
libc = "*"
log = "*"
tokio = { version = "*", features = ["net", "io-util", "rt"] }
