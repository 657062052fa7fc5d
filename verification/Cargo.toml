[package]
name = "shogi_session"
version = "0.1.0"
edition = "2021"
publish = false

[dependencies]
shogi = "*"
clap = { version = "*", features = ["derive"] }
serialport = { version = "*", default-features = false }
