[package]
name = "r3sizer"
version = "0.1.0"
edition = "2021"
publish = false

[dependencies]
anyhow = "1"
clap = { version = "4", features = ["derive"] }
fast_image_resize = "5"
glob = "0.3"
image = { version = "0.25", default-features = false, features = ["png", "jpeg"] }
js-sys = "0.3"
rayon = "1"
serde = { version = "1", features = ["derive"] }
serde_json = "1"
serde-wasm-bindgen = "0.6"
thiserror = "2"
wasm-bindgen = "0.2"
web-time = "1"
