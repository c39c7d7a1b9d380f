[package]
name = "ultimate_ttt"
version = "0.1.0"
edition = "2021"
publish = false

[dependencies]
bevy = { version = "=0.13.2", default-features = false }
bevy_quinnet = { version = "=0.8.0", default-features = false }
serde = { version = "1", features = ["derive"] }
