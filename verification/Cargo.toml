[package]
name = "nep141_model"
version = "0.1.0"
edition = "2021"
publish = false

[dependencies]
near-sdk = { version = "3.1.0", default-features = false }
