[package]
name = "pharness_api"
version = "0.1.0"
edition = "2021"
publish = false

[dependencies]
sha2 = "=0.10.9"
subtle = "=2.6.1"
serde_json = "=1.0.154"
serde = { version = "=1.0.229", features = ["derive"] }
