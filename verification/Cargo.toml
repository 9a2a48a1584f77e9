[package]
name = "snappy_ocr"
version = "0.1.0"
edition = "2021"
publish = false

[dependencies]
arboard = { version = "*", default-features = false }
image = { version = "*", default-features = false, features = ["png"] }
leptess = "*"
