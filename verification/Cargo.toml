[package]
name = "vale_village"
version = "0.1.0"
edition = "2021"
publish = false

[dependencies]
rand = "0.8"
serde = { version = "1", features = ["derive"] }
ron = "0.8"
dirs = "5"
bevy = { version = "0.15", default-features = false, features = ["bevy_state"] }
