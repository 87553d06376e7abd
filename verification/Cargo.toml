[package]
name = "rust_waves"
version = "0.1.0"
edition = "2021"
publish = false

[dependencies]
num = "*"
wasm-bindgen = "*"
web-sys = { version = "*", features = ["console"] }
console_error_panic_hook = "*"
wee_alloc = "*"
