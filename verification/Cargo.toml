[package]
name = "thetawave"
version = "0.1.0"
edition = "2021"
publish = false

[dependencies]
bevy_app = "=0.20.0"
bevy_ecs = "=0.20.0"
bevy_math = { version = "=0.20.0", features = ["serialize"] }
bevy_time = { version = "=0.20.0", features = ["serialize"] }
rand = "=0.10.3"
ron = "*"
serde = { version = "1", features = ["derive"] }
