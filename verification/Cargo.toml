[package]
name = "dice_roll"
version = "0.1.0"
edition = "2021"
publish = false

[dependencies]
bevy = { version = "0.8", default-features = false, features = ["bevy_asset", "bevy_scene", "bevy_winit", "render", "png", "x11"] }
bevy_rapier3d = "0.16"
rand = "0.8"
