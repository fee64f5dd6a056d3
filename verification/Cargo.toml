[package]
name = "wasm_exports"
version = "0.1.0"
edition = "2021"
publish = false

[dependencies]
anyhow = "=1.0.104"
clap = { version = "=4.6.7", features = ["derive"] }
itertools = "=0.15.0"
wasmtime = "=48.0.5"
