[package]
name = "fast_thumbnail"
version = "0.1.0"
edition = "2021"
publish = false

[dependencies]
base64 = "=0.22.1"
fast_image_resize = "=6.1.0"
image = { version = "=0.25.10", default-features = false, features = ["bmp", "gif", "ico", "jpeg", "png", "tiff", "webp"] }
libwebp-sys = "=0.9.6"
rustler = "=0.34.0"
webp = { version = "=0.3.1", default-features = false }
