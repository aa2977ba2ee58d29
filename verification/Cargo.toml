[package]
name = "apdu_dispatch"
version = "0.1.0"
edition = "2021"
publish = false

[dependencies]
ledger_device_sdk = "*"
ledger_secure_sdk_sys = "*"
include_gif = "*"
