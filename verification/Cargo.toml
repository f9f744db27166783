[package]
name = "startup_check"
version = "0.1.0"
edition = "2021"
publish = false

[dependencies]
regex = "1"
axum = { version = "*", default-features = false, features = ["json"] }
serde_json = "1"
tracing = "0.1"
