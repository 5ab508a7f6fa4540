[package]
name = "ai_error"
version = "0.1.0"
edition = "2021"
publish = false

[dependencies]
reqwest = { version = "*", default-features = false }
serde_json = "*"
thiserror = "*"
