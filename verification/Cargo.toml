[package]
name = "bounded_random"
version = "0.1.0"
edition = "2021"
publish = false

[dependencies]
anyhow = "1"
getrandom = { version = "0.2", features = ["std"] }
