[package]
name = "leodos_protocols"
version = "0.1.0"
edition = "2021"
publish = false

[dependencies]
heapless = "0.8"
aes-gcm = "0.10"
