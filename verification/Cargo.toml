[package]
name = "flappy"
version = "0.1.0"
edition = "2021"
publish = false

[dependencies]
bracket-lib = { version = "=0.8.7", default-features = false, features = ["crossterm"] }
bracket-random = "=0.8.7"
