[package]
name = "reporter_action"
version = "0.1.0"
edition = "2021"
publish = false

[dependencies]
rust-releases = { version = "=0.28.0", default-features = false }
serde = { version = "1", features = ["derive"] }
