[package]
name = "muzak"
version = "0.1.0"
edition = "2021"
publish = false

[dependencies]
ahash = "0.8"
async-std = "1"
serde = { version = "1", features = ["derive"] }
serde_json = "1"
tracing = "0.1"
