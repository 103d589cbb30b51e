[package]
name = "wasi_bridge"
version = "0.1.0"
edition = "2021"
publish = false

[dependencies]
cranelift-codegen = "=0.50.0"
cranelift-entity = "=0.50.0"
cranelift-wasm = "=0.50.0"
log = "=0.4.34"
target-lexicon = "=0.9.0"
wasi-common = "=0.4.0"
wasmtime-environ = "=0.7.0"
wasmtime-runtime = "=0.7.0"
