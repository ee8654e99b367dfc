[package]
name = "formdata"
version = "0.1.0"
edition = "2021"
publish = false

[dependencies]
mime = "*"
serde = { version = "*", features = ["derive"] }
tempdir = "*"
textnonce = "*"
