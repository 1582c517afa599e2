[package]
name = "template_matcher"
version = "0.1.0"
edition = "2021"
publish = false

[dependencies]
napi = "2"
napi-derive = "2"
opencv = { version = "*", default-features = false, features = ["imgcodecs", "imgproc"] }
serde = { version = "1", features = ["derive"] }
