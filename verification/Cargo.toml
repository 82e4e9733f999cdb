[package]
name = "rye_bootstrap"
version = "0.1.0"
edition = "2021"
publish = false

[dependencies]
anyhow = "1"
console = "0.15"
curl = "0.4"
hex = "0.4"
indicatif = "0.17"
once_cell = "1"
sha2 = "0.10"
tempfile = "3"
