[package]
name = "futures-state-stream"
version = "0.2.0"
edition = "2021"
publish = false

[dependencies]
futures = "0.1"
