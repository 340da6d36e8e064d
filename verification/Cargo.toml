[package]
name = "platformer"
version = "0.1.0"
edition = "2021"
publish = false

[dependencies]
bevy = { version = "=0.6.1", default-features = false, features = ["render", "bevy_winit", "png", "x11"] }
bevy_rapier2d = "=0.12.1"
bevy-inspector-egui = { version = "=0.8.2", default-features = false }
bevy_prototype_debug_lines = "=0.6.1"
ldtk_rust = "=0.6.0"
rapier2d = { version = "=0.12.0-alpha.0", default-features = false, features = ["dim2", "f32", "default-sets"] }
