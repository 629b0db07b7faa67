[package]
name = "media_server"
version = "0.1.0"
edition = "2021"
publish = false

[dependencies]
prost = "0.12"
serde = { version = "1", features = ["derive"] }
