[package]
name = "doc_anal"
version = "0.1.0"
edition = "2021"
publish = false

[dependencies]
byteorder = "1"
hex = "0.4"
cfb = "*"
json = "0.12"
serde = { version = "1", features = ["derive"] }
serde_json = "1"
toml = "*"
