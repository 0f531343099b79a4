[package]
name = "ed448"
version = "0.1.0"
edition = "2021"
publish = false

[dependencies]
signature = { version = "2", default-features = false }
