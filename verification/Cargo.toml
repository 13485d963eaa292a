[package]
name = "lucifer"
version = "0.1.0"
edition = "2021"
publish = false

[dependencies]
rand = { version = "*", features = ["small_rng"] }
cgmath = "*"
clap = "*"
image = "*"
