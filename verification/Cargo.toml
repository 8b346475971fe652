[package]
name = "wasm_isolate"
version = "0.1.0"
edition = "2021"
publish = false

[dependencies]
anyhow = "=1.0.104"
clap = { version = "=4.6.7", features = ["derive"] }
wasm-encoder = { version = "=0.262.0", features = ["wasmparser"] }
wasmparser = "=0.262.0"
