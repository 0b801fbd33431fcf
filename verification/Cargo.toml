[package]
name = "doasedit"
version = "1.0.0"
edition = "2021"
publish = false

[dependencies]
clap = "4"
nix = { version = "*", features = ["user"] }
tempfile = "3"
