[package]
name = "rotocam"
version = "0.1.0"
edition = "2021"
publish = false

[dependencies]
anyhow = "1.0.104"
opencv = { version = "0.101.0", default-features = false, features = ["imgproc", "videoio"] }
slint = { version = "1.18.1", default-features = false, features = ["std", "compat-1-2"] }
