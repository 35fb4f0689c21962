[package]
name = "thyme_core"
version = "0.1.0"
edition = "2021"
publish = false

[dependencies]
rusttype = "0.9"
serde = { version = "1", features = ["derive"] }
