[package]
name = "rustible"
version = "0.1.0"
edition = "2021"
publish = false

[dependencies]
expanduser = "*"
clap = { version = "4", features = ["derive"] }
