[package]
name = "ergo_protocol_framework"
version = "0.1.0"
edition = "2021"
publish = false

[dependencies]
ergo-lib = "*"
thiserror = "*"
