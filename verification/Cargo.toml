[package]
name = "bevsteroids"
version = "0.1.0"
edition = "2021"
publish = false

[dependencies]
bevy = { version = "=0.15.3", default-features = false, features = ["bevy_sprite", "bevy_asset"] }
