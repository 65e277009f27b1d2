[package]
name = "bevy_transform_interpolation"
version = "0.1.0"
edition = "2021"
publish = false

[dependencies]
bevy = { version = "0.15", default-features = false }
crossbeam-channel = "0.5"
profiling = "1"
rand = "0.8"
serde = { version = "1", features = ["derive"] }
