[package]
name = "cosmic_junkyard"
version = "0.1.0"
edition = "2021"
publish = false

[dependencies]
bevy = { version = "0.11", default-features = false }
bevy_xpbd_3d = { version = "0.2", default-features = false, features = ["3d", "f32"] }
bevy-trait-query = "0.3"
