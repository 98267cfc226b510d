[package]
name = "ruff_fmt"
version = "0.1.0"
edition = "2021"
rust-version = "1.95"
publish = false

[dependencies]
ruff_python_formatter = "=0.0.10"
ruff_formatter = "=0.0.10"
ruff_python_ast = "=0.0.10"
wasm-bindgen = "*"
serde-wasm-bindgen = "*"
serde_json = "*"
