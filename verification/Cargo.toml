[package]
name = "wasi_nn_burn"
version = "0.1.0"
edition = "2021"
publish = false

[dependencies]
futures = { version = "0.3", default-features = false, features = ["std", "executor"] }
log = "0.4"
once_cell = "1"
wasmedge_plugin_sdk = "=0.2.0"
wasmedge-wasi-nn = "=0.8.0"
wgpu = "=26.0.1"
