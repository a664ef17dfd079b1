[package]
name = "height_map_test"
version = "0.1.0"
edition = "2021"
publish = false

[dependencies]
noise = "=0.9.0"
wasm-bindgen = "=0.2.129"
js-sys = "=0.3.106"
