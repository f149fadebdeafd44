[package]
name = "gym_harness"
version = "0.1.0"
edition = "2021"
publish = false

[dependencies]
bevy = { version = "=0.5.0", default-features = false, features = ["render", "bevy_winit", "bevy_wgpu", "x11"] }
bevy_egui = "=0.5.0"
bevy-inspector-egui = "=0.5.1"
bevy_prototype_debug_lines = "=0.3.4"
bevy_rapier2d = "=0.10.2"
clap = "=3.0.0-beta.2"
rand = "=0.8.8"
serde = { version = "=1.0.229", features = ["derive"] }
tch = "=0.4.1"
toml = "=0.5.11"
