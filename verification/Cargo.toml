[package]
name = "openai_api"
version = "0.1.0"
edition = "2021"
publish = false

[dependencies]
reqwest = { version = "0.11", features = ["blocking", "multipart"] }
serde = "1"
serde_derive = "1"
serde_json = "1"
