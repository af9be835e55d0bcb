[package]
name = "surtur"
version = "0.1.0"
edition = "2021"
publish = false

[dependencies]
mlua = { version = "*", features = ["lua54", "vendored"] }
git2 = { version = "*", default-features = false }
clap = "*"
colored = "*"
dirs = "*"
