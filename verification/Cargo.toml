[package]
name = "page"
version = "0.1.0"
edition = "2021"
publish = false

[dependencies]
candid = "0.10"
priority-queue = "2"
urlencoding = "2"
rand = "0.9"
uuid = { version = "1", features = ["v4"] }
serde = { version = "1", features = ["derive"] }
serde_json = "1"
