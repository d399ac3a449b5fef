[package]
name = "taupe"
version = "0.1.0"
edition = "2021"
publish = false

[dependencies]
image = { version = "=0.25.10", default-features = false, features = ["bmp", "dds", "ff", "gif", "hdr", "ico", "jpeg", "png", "pnm", "qoi", "tga", "tiff", "webp"] }
lofty = "=0.22.4"
rodio = "=0.21.1"
iced = { version = "=0.14.0", default-features = false, features = ["tiny-skia", "image-without-codecs", "svg"] }
