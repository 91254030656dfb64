[package]
name = "dojo_uniffi"
version = "0.1.0"
edition = "2021"
publish = false

[dependencies]
tokio = { version = "1", features = ["rt-multi-thread"] }
starknet = "0.17"
crypto-bigint = "0.5"
futures-util = "0.3"
