[package]
name = "bevy_ui_anchor"
version = "0.1.0"
edition = "2021"
publish = false

[dependencies]
bevy = { version = "0.16", default-features = false, features = ["std", "async_executor", "bevy_log", "bevy_render", "bevy_ui", "bevy_window"] }
