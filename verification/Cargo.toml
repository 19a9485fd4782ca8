[package]
name = "car_rig"
version = "0.1.0"
edition = "2021"
publish = false

[dependencies]
bevy = { version = "=0.10.1", default-features = false, features = ["bevy_asset", "bevy_core_pipeline", "bevy_render", "bevy_sprite", "bevy_winit", "png", "x11"] }
bevy_rapier2d = { version = "=0.21.0", default-features = false, features = ["dim2", "debug-render-2d", "async-collider"] }
tiled = { version = "=0.11.2", default-features = false }
