[package]
name = "totp26"
version = "0.1.0"
edition = "2021"
publish = false

[dependencies]
base64 = "0.13"
hmac = "0.12"
sha1 = "0.10"
