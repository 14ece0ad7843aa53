[package]
name = "brust64"
version = "0.1.0"
edition = "2021"
publish = false

[dependencies]
base64 = "0.13"
image-base64 = "*"
docopt = "*"
serde = { version = "*", features = ["derive"] }
walkdir = "*"

[dev-dependencies]
tera = "1"
serde_json = "*"
