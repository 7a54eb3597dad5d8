[package]
name = "kt-ui"
version = "0.1.0"
edition = "2021"
publish = false

[dependencies]
base64 = "0.22"
qrcode = { version = "0.14", default-features = false }
rqrr = "*"
chrono = "0.4"
fontdb = "*"
arboard = "3"
