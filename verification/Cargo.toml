[package]
name = "particles"
version = "0.1.0"
edition = "2021"
publish = false

[dependencies]
bevy = { version = "0.11", default-features = false }
rand = "0.8"
ron = "0.8"
serde = { version = "1", features = ["derive"] }
