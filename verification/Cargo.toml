[package]
name = "pack_opening"
version = "0.1.0"
edition = "2021"
publish = false

[dependencies]
bevy = { version = "=0.18.1", default-features = false, features = ["std", "bevy_log", "bevy_color", "bevy_state", "bevy_picking", "bevy_pbr", "bevy_ui"] }
