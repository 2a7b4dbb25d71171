[package]
name = "snippet_extract"
version = "0.1.0"
edition = "2021"
publish = false

[dependencies]
serde_json = "1"
wasm-bindgen = "*"
serde-wasm-bindgen = "*"
