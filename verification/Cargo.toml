[package]
name = "ascii_art"
version = "0.1.0"
edition = "2021"
publish = false

[dependencies]
colored = "*"
image = { version = "*", default-features = false, features = ["png", "jpeg"] }
