[package]
name = "generative_art"
version = "0.1.0"
edition = "2021"
publish = false

[dependencies]
rand = { version = "0.8", features = ["small_rng"] }
resvg = "*"
image = "*"
