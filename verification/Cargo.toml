[package]
name = "bb_core"
version = "0.1.0"
edition = "2021"
publish = false

[dependencies]
serde = { version = "=1.0.229", features = ["derive"] }
serde_json = "=1.0.154"
wasm-bindgen = "=0.2.130"
console_error_panic_hook = "=0.1.7"
js-sys = "0.3"
serde-wasm-bindgen = "0.6"
