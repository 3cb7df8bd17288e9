[package]
name = "flight_core"
version = "0.1.0"
edition = "2021"
publish = false

[dependencies]
i_overlay = "=9.1.0"
bevy = { version = "=0.17.3", default-features = false, features = ["std", "bevy_asset", "bevy_mesh"] }
ron = "=0.12.2"
serde = { version = "=1.0.229", features = ["derive"] }
thiserror = "=2.0.21"
