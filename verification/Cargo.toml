[package]
name = "planet_gravity"
version = "0.1.0"
edition = "2021"
publish = false

[dependencies]
bevy = { version = "=0.15.3", default-features = false, features = ["bevy_asset", "bevy_core_pipeline", "bevy_render", "bevy_sprite", "bevy_window"] }
bevy_prototype_lyon = "0.13"
bevy_rapier2d = { version = "=0.28.0", default-features = false, features = ["dim2"] }
rapier2d = "=0.22.0"
