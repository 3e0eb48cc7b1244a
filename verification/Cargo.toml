[package]
name = "tide_tera"
version = "0.1.0"
edition = "2021"
publish = false

[dependencies]
tera = "1"
tide = "0.16"

[dev-dependencies]
async-std = "1"
