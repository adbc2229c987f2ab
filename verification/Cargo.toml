[package]
name = "rust_rover"
version = "0.1.0"
edition = "2021"
publish = false

[dependencies]
bracket-lib = { version = "*", default-features = false, features = ["crossterm"] }
