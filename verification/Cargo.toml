[package]
name = "librecrypt_wallet"
version = "0.1.0"
edition = "2021"
publish = false

[dependencies]
hex = "0.4"
serde = { version = "1", features = ["derive"] }
serialport = { version = "4", default-features = false }
