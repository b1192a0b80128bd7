[package]
name = "respicta"
version = "0.1.0"
edition = "2021"
publish = false

[dependencies]
png = "=0.18.1"
oxipng = { version = "=10.2.1", default-features = false }
resize = "=0.8.9"
rgb = "=0.8.53"
imgref = "=1.12.3"
image = { version = "=0.25.10", default-features = false, features = ["rayon", "bmp", "gif", "jpeg", "png", "tiff", "webp"] }
libwebp-sys = "=0.14.4"
ravif = { version = "=0.13.0", default-features = false, features = ["threading"] }
clap = { version = "=4.6.7", features = ["derive"] }
