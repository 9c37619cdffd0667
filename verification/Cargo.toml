[package]
name = "card_placement"
version = "0.1.0"
edition = "2021"
publish = false

[dependencies]
bevy = { version = "=0.16.1", default-features = false, features = ["bevy_ui", "bevy_pbr", "bevy_picking", "bevy_window", "bevy_log", "bevy_asset", "bevy_color", "bevy_text", "bevy_state"] }
bevy_card3d_kit = { version = "=0.1.4", features = ["image_preview"] }
bevy_scriptum = { version = "=0.8.1", features = ["lua"] }
mlua = "=0.9.9"
