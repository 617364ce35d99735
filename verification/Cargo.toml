[package]
name = "zwitter"
version = "0.1.0"
edition = "2021"
publish = false

[dependencies]
rand = "*"
uuid = { version = "*", features = ["v4"] }
chrono = "*"
validator = "*"
actix-web = "*"
serde = { version = "*", features = ["derive"] }
serde_json = "*"
