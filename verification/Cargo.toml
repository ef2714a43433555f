[package]
name = "msg_inspector"
version = "0.1.0"
edition = "2021"
publish = false

[dependencies]
bevy_app = "=0.19.1"
bevy_asset = "=0.19.1"
bevy_camera = "=0.19.1"
bevy_color = "=0.19.1"
bevy_ecs = "=0.19.1"
bevy_gizmos = { version = "=0.19.1", default-features = false }
bevy_image = { version = "=0.19.1", default-features = false }
bevy_input = "=0.19.1"
bevy_math = "=0.19.1"
bevy_picking = "=0.19.1"
bevy_reflect = "=0.19.1"
bevy_sprite = { version = "=0.19.1", default-features = false }
bevy_time = "=0.19.1"
bevy_transform = "=0.19.1"
bevy_window = "=0.19.1"
bevy_egui = { version = "=0.40.1", default-features = false }
bevy-inspector-egui = { version = "=0.37.0", default-features = false }
egui_dock = "=0.19.1"
