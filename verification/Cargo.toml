[package]
name = "image_converter"
version = "0.1.0"
edition = "2021"
publish = false

[dependencies]
image = { version = "0.25", default-features = false, features = ["png", "jpeg", "gif", "webp", "bmp", "ico", "tiff", "tga", "ff"] }
wasm-bindgen = { version = "0.2" }
web-sys = { version = "0.3", features = ["console"] }
