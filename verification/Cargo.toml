[package]
name = "bevy_uix"
version = "0.1.0"
edition = "2021"
publish = false

[dependencies]
roxmltree = "0.20"
thiserror = "2"
bevy_app = { version = "0.16", default-features = false }
bevy_asset = { version = "0.16", default-features = false }
bevy_color = { version = "0.16", default-features = false }
bevy_ecs = { version = "0.16", default-features = false }
bevy_reflect = { version = "0.16", default-features = false }
bevy_ui = { version = "0.16", default-features = false }
