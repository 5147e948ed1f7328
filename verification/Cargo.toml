[package]
name = "cargo_readme"
version = "0.1.0"
edition = "2021"
publish = false

[dependencies]
regex = "1"
percent-encoding = "2"
cargo_toml = "*"
clap = "2"
