[package]
name = "brewing"
version = "0.1.0"
edition = "2021"
publish = false

[dependencies]
bevy = { version = "0.8", default-features = false, features = ["bevy_asset", "bevy_winit", "render", "png", "x11"] }
bevy_rapier2d = { version = "0.16", default-features = false, features = ["dim2"] }
