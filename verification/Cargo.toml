[package]
name = "freecam"
version = "0.1.0"
edition = "2021"
publish = false

[dependencies]
bevy = { version = "0.17", default-features = false, features = ["std", "bevy_window", "bevy_winit", "x11", "bevy_log", "bevy_pbr", "bevy_gizmos"] }
