[package]
name = "oramacore_client"
version = "0.1.0"
edition = "2021"
publish = false

[dependencies]
rand = "0.9"
reqwest = { version = "0.12", default-features = false, features = ["blocking"] }
serde = { version = "1", features = ["derive"] }
serde_json = "1"
