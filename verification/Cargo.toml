[package]
name = "piano_listen"
version = "0.1.0"
edition = "2021"
publish = false

[dependencies]
midir = "*"
crossbeam-channel = "*"
serde = { version = "*", features = ["derive"] }
