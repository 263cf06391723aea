[package]
name = "tg"
version = "0.1.0"
edition = "2021"
publish = false

[dependencies]
anyhow = "1"
frankenstein = { version = "0.30", default-features = false, features = ["telegram-trait"] }
serde = { version = "1", features = ["derive"] }
serde_json = "1"
url = "2.5"
