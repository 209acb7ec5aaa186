[package]
name = "actix_web_utils"
version = "0.1.0"
edition = "2021"
publish = false

[dependencies]
serde = { version = "1", features = ["derive"] }
serde_json = "1"
actix-web = { version = "4", default-features = false }
futures = "0.3"
mime = "0.3"
tracing = "0.1"
validator = { version = "*", features = ["derive"] }
