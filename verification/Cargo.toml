[package]
name = "aeszippy"
version = "0.1.0"
edition = "2021"
publish = false

[dependencies]
aes = "0.8"
cbc = { version = "0.1", features = ["block-padding"] }
cipher = { version = "0.4", features = ["block-padding"] }
sha2 = "0.10"
getrandom = "0.2"
thiserror = "1"
