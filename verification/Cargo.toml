[package]
name = "macutil"
version = "0.1.0"
edition = "2021"
publish = false

[dependencies]
rand = "0.8"
nix = "0.23"
clap = { version = "3", features = ["derive"] }
colored = "2"
