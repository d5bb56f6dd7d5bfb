[package]
name = "cargo-uwp"
version = "0.2.0"
edition = "2021"
publish = false

[dependencies]
toml_edit = "0.2"
anyhow = "1"
structopt = "0.3"
console = "0.15"
