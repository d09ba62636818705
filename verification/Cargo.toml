[package]
name = "errclass"
version = "0.1.0"
edition = "2021"
publish = false

[dependencies]
regex = "*"
nix = "*"
serde_json = "*"
