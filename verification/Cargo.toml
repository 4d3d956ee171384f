[package]
name = "wasm_cache"
version = "0.1.0"
edition = "2021"
publish = false

[dependencies]
cosmwasm-vm = { version = "1.0", default-features = false }

[dev-dependencies]
tempfile = "3"
