[package]
name = "ib_rust_api"
version = "0.1.0"
edition = "2021"
publish = false

[dependencies]
regex = "*"
crossbeam-channel = "*"
serde = "*"
serde_derive = "*"
