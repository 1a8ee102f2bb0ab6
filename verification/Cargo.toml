[package]
name = "misttoken"
version = "0.1.0"
edition = "2021"
publish = false

[dependencies]
anchor-lang = "=0.31.2"
light-hasher = { version = "=7.0.0", features = ["sha256"] }
