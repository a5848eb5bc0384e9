[package]
name = "qr_portal"
version = "0.1.0"
edition = "2021"
publish = false

[dependencies]
qrcode = "0.13"
image = "0.24"
base64 = "0.22"
