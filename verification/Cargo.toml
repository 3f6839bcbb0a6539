[package]
name = "cameleon"
version = "0.1.0"
edition = "2021"
publish = false

[dependencies]
async-std = "1"
futures-channel = "0.3"
tracing = "0.1"
