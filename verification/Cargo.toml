[package]
name = "asteroid_core"
version = "0.1.0"
edition = "2021"
publish = false

[dependencies]
rand = "0.8"
postcard = "1"
serde = "1"
