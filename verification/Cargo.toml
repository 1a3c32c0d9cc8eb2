[package]
name = "peerd"
version = "0.1.0"
edition = "2021"
publish = false

[dependencies]
anyhow = "1"
log = "0.4"
once_cell = "1"
simple_logger = "*"
tokio = { version = "1", features = ["full"] }
