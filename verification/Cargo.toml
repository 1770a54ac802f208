[package]
name = "virtool"
version = "0.1.0"
edition = "2021"
publish = false

[dependencies]
async-std = { version = "*", features = ["attributes"] }
dirs = "*"
hex = "*"
log = "*"
parity-scale-codec = "*"
serde_json = "*"
sp-core = "*"
structopt = "*"
sube = "*"
