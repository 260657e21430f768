[package]
name = "pwgen"
version = "0.1.0"
edition = "2021"
publish = false

[dependencies]
arboard = "*"
clap = { version = "*", features = ["derive"] }
once_cell = "*"
rand = "*"
