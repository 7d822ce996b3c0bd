[package]
name = "cargo_cmd"
version = "0.1.0"
edition = "2021"
publish = false

[dependencies]
toml = "0.8"
subprocess = "*"
structopt = "0.3"
