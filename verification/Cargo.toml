[package]
name = "impostor_core"
version = "0.1.0"
edition = "2021"
publish = false

[dependencies]
axum = "0.7"
regex = "1"
serde_json = "1"
