[package]
name = "td4"
version = "0.1.0"
edition = "2021"
publish = false

[dependencies]
yew = "0.17"
wasm-bindgen = "0.2"
