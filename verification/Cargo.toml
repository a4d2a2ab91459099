[package]
name = "bevy_simple_scrollbar"
version = "0.1.0"
edition = "2021"
publish = false

[dependencies]
bevy = { version = "0.15", default-features = false, features = ["bevy_ui", "bevy_picking", "bevy_window"] }
log = "0.4"
