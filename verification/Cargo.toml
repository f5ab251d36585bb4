[package]
name = "bevy_entity_ptr"
version = "0.1.0"
edition = "2021"
publish = false

[dependencies]
bevy_ecs = { version = "0.17", default-features = false, features = ["std"] }
