[package]
name = "pointiv-extension-sdk"
version = "0.3.0"
edition = "2021"
publish = false

[dependencies]
extism-pdk = "1"
serde = { version = "1", features = ["derive"] }
serde_json = "1"
