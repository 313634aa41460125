[package]
name = "sc-executor-wasmedge"
version = "0.1.0"
edition = "2021"
publish = false

[dependencies]
sc-allocator = "*"
sc-executor-common = "*"
sp-wasm-interface = "*"
sp-runtime-interface = "*"
parity-scale-codec = "*"
wasmedge-sdk = { version = "0.8.1", default-features = false }
wasmedge-sys = { version = "0.13.1", default-features = false }
wasmedge-types = "0.4.4"
libc = "*"
log = "*"
