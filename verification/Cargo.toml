[package]
name = "restcrab"
version = "0.1.0"
edition = "2021"
publish = false

[dependencies]
http = "1"
reqwest = { version = "0.12", default-features = false, features = ["blocking"] }
serde = "1"
serde_json = "1"
