[package]
name = "clvm_core"
version = "0.1.0"
edition = "2021"

[dependencies]
openssl = "0.10"
