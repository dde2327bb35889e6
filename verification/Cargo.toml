[package]
name = "tetris"
version = "0.1.0"
edition = "2021"
publish = false

[dependencies]
rand = "0.8"
cgmath = { version = "0.17", features = ["mint"] }
ggez = "0.5"
