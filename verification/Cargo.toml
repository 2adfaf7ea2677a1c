[package]
name = "jxl_png"
version = "0.1.0"
edition = "2021"
publish = false

[dependencies]
jxl-oxide = "*"
png = "*"
miniz_oxide = "*"
wasm-bindgen = "*"
js-sys = "*"
console_error_panic_hook = "*"
thiserror = "*"
tracing = "*"
tracing-wasm = "*"
