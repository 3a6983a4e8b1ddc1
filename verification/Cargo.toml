[package]
name = "svlint"
version = "0.1.0"
edition = "2021"
publish = false

[dependencies]
anyhow = "*"
enquote = "*"
structopt = "*"
sv-parser = "*"
toml = "*"
