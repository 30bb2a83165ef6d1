[package]
name = "fire_auth"
version = "0.1.0"
edition = "2021"
publish = false

[dependencies]
awc = { version = "3", default-features = false }
serde = { version = "1", features = ["derive"] }
