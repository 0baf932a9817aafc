[package]
name = "voutil"
version = "0.1.0"
edition = "2021"
publish = false

[dependencies]
slint = { version = "1", default-features = false, features = ["std", "compat-1-2"] }
serde = { version = "1", features = ["derive"] }
serde_json = "1"
dirs-next = "2"
anyhow = "1"
log = "0.4"
dark-light = "*"
image = { version = "0.25", default-features = false, features = ["png", "jpeg", "bmp", "webp", "gif", "tiff"] }
rayon = "1"
arboard = "3"
libheif-rs = "*"
