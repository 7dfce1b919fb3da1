[package]
name = "console_strip"
version = "0.1.0"
edition = "2021"
publish = false

[dependencies]
anyhow = "1"
console_error_panic_hook = "0.1"
once_cell = "1"
swc = "*"
swc_common = "*"
swc_ecmascript = { version = "*", features = ["visit"] }
wasm-bindgen = { version = "0.2", features = ["serde-serialize"] }
