[package]
name = "rv2wasm"
version = "0.1.0"
edition = "2021"
publish = false

[dependencies]
anyhow = "1"
clap = { version = "4", features = ["derive"] }
goblin = "0.8"
wasm-bindgen = "0.2"
wasm-encoder = "0.41"

[dev-dependencies]
wasmi = "*"
