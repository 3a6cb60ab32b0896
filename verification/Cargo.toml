[package]
name = "bevy_ios_touch_fix"
version = "0.1.0"
edition = "2021"
publish = false

[dependencies]
bevy_app = { version = "0.11", default-features = false }
bevy_ecs = { version = "0.11", default-features = false }
bevy_math = "0.11"
objc2 = "0.4"
