[package]
name = "sapio"
version = "0.1.0"
edition = "2021"
publish = false

[dependencies]
bitcoin = "0.28"
miniscript = { version = "7", features = ["compiler"] }
