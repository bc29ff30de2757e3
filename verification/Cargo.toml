[package]
name = "retris"
version = "0.1.0"
edition = "2021"
publish = false

[dependencies]
clap = { version = "*", features = ["derive"] }
downcast-rs = "1"
fxhash = "0.2"
libremarkable = "*"
rand = "0.7"
tetris_core = "*"
