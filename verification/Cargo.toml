[package]
name = "fileshare_core"
version = "0.1.0"
edition = "2021"
publish = false

[dependencies]
aes-gcm = "*"
rand = "*"
sha2 = "*"
uuid = "*"
chrono = "*"
validator = "*"
