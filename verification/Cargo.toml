[package]
name = "nxt"
version = "0.2.0"
edition = "2021"
publish = false

[dependencies]
futures = "0.3"
tracing = "0.1"
