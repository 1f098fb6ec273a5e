[package]
name = "gospel_search"
version = "0.1.0"
edition = "2021"
publish = false

[dependencies]
regex = "1"
serde_json = "1"
wasm-bindgen = "0.2"
serde-wasm-bindgen = "0.6"
