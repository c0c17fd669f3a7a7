[package]
name = "hoops_and_boops"
version = "0.1.0"
edition = "2021"
publish = false

[dependencies]
bevy = { version = "=0.16.1", default-features = false, features = ["std", "async_executor", "bevy_asset", "bevy_color", "bevy_core_pipeline", "bevy_picking", "bevy_render", "bevy_sprite", "bevy_sprite_picking_backend", "bevy_text", "bevy_ui", "bevy_window", "png"] }
bevy_tweening = { version = "=0.13.0", default-features = false, features = ["bevy_sprite", "bevy_ui", "bevy_text", "bevy_asset"] }
