[package]
name = "feldspar"
version = "0.1.0"
edition = "2021"
publish = false

[dependencies]
bevy = { version = "=0.17.3", default-features = false, features = ["std", "bevy_ui", "bevy_pbr", "bevy_state", "bevy_log", "bevy_window"] }
serde = { version = "=1.0.229", features = ["derive"] }
