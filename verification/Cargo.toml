[package]
name = "tiles"
version = "0.1.0"
edition = "2021"
publish = false

[dependencies]
anyhow = "1"
bevy = { version = "0.16", default-features = false, features = ["std", "async_executor", "bevy_asset", "bevy_image", "bevy_log", "bevy_window", "png"] }
serde = { version = "1", features = ["derive"] }
