[package]
name = "oscify"
version = "0.1.0"
edition = "2021"
publish = false

[dependencies]
rosc = "*"
serde = { version = "*", features = ["derive"] }
serde_json = "*"
vst2 = "*"
