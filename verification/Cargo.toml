[package]
name = "mini_uuid"
version = "0.1.0"
edition = "2021"
publish = false

[dependencies]
base64 = "*"
hex = "*"
uuid = { version = "*", features = ["v4"] }
