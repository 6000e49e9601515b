[package]
name = "bevy_tetris"
version = "0.1.0"
edition = "2021"
publish = false

[dependencies]
bevy = { version = "=0.2.1", default-features = false, features = ["bevy_render", "bevy_sprite"] }
notify = "=5.0.0-pre.3"
