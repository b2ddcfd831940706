[package]
name = "slidedeck"
version = "0.1.0"
edition = "2021"
publish = false

[dependencies]
appcui = "*"
wasm-bindgen = "*"
web-sys = { version = "*", features = ["console"] }
console_error_panic_hook = "*"
