[package]
name = "maze"
version = "0.1.0"
edition = "2021"
publish = false

[dependencies]
figlet-rs = "*"
k_board = "*"
rand = "0.8"
