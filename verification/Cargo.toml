[package]
name = "wasm_instrumenter"
version = "0.1.0"
edition = "2021"
publish = false

[dependencies]
ordered-float = "=5.5.1"
ansi_term = "=0.12.1"
clap = "=2.34.0"
