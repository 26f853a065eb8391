[package]
name = "clara_mcp"
version = "0.1.0"
edition = "2021"
publish = false

[dependencies]
chrono = "0.4"
urlencoding = "2"
serde_json = "1"
reqwest = { version = "0.12", default-features = false, features = ["blocking", "json"] }
walkdir = "2"
