[package]
name = "mapbuilder"
version = "0.1.0"
edition = "2021"
publish = false

[dependencies]
bevy = { version = "=0.8.1", default-features = false, features = ["render", "bevy_winit", "png", "x11"] }
bevy_egui = { version = "0.16", default-features = false }
bevy_framepace = "0.7"
egui = "0.19"
petname = "=1.1.3"
rand = "=0.8.8"
serde = { version = "=1.0.229", features = ["derive"] }
serde_json = "=1.0.154"
