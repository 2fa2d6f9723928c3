[package]
name = "bevy_settings_plus"
version = "0.1.0"
edition = "2021"
publish = false

[dependencies]
bevy_app = "=0.19.1"
bevy_ecs = "=0.19.1"
bevy_reflect = "=0.19.1"
bevy_log = "=0.19.1"
bevy_window = "=0.19.1"
bevy_render = "=0.19.1"
bevy_anti_alias = "=0.19.1"
wgpu-types = "=29.0.4"
bevy-settings = "0.19"
serde = { version = "1", features = ["derive"] }
ron = "=0.12.3"
serde_json = "1"
thiserror = "=2.0.21"
directories = "=6.0.0"
web-sys = { version = "0.3", features = ["Window", "Storage"] }
