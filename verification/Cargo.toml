[package]
name = "scene_codec_boundary"
version = "0.1.0"
edition = "2021"
publish = false

[dependencies]
openctm = "=0.1.0"
serde = { version = "=1.0.229", features = ["derive"] }
serde_bytes = "=0.11.19"
serde-wasm-bindgen = "=0.6.5"
wasm-bindgen = "=0.2.129"
js-sys = "=0.3.106"
web-sys = { version = "=0.3.106", features = ["console"] }
console_error_panic_hook = "=0.1.7"

[dev-dependencies]
lzma-rs = "=0.3.0"
