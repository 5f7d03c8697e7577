[package]
name = "hello"
version = "0.1.0"
edition = "2021"
publish = false

[dependencies]
base64 = "*"
chrono = "*"
data-encoding = "*"
rand = "*"
reqwest = { version = "*", default-features = false, features = ["blocking"] }
ring = "*"
serde = "*"
serde_json = "*"
