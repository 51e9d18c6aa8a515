[package]
name = "img_processor"
version = "0.1.0"
edition = "2021"
publish = false

[dependencies]
oxipng = { version = "=10.2.1", default-features = false }
rimage = { version = "=0.14.0", default-features = false, features = ["mozjpeg", "oxipng", "webp"] }
serde = { version = "=1.0.229", features = ["derive"] }
zune-image = "=0.5.0"
