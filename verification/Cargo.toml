[package]
name = "tnua_rapier2d"
version = "0.1.0"
edition = "2021"
publish = false

[dependencies]
bevy = { version = "=0.15.3", default-features = false }
bevy_rapier2d = { version = "=0.28.0", default-features = false, features = ["dim2"] }
bevy-tnua-physics-integration-layer = "=0.7.0"
