[package]
name = "oemount"
version = "0.1.0"
edition = "2021"
publish = false

[dependencies]
clap = "3"
nix = "0.26"
scopeguard = "1"
