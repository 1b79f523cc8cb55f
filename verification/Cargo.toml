[package]
name = "brt"
version = "0.1.0"
edition = "2021"
publish = false

[dependencies]
bevy = { version = "0.15", default-features = false, features = ["bevy_asset", "bevy_window", "bevy_winit"] }
directories = "5"
image = { version = "0.25", default-features = false, features = ["png"] }
rand = "0.8"
rand_pcg = { version = "0.3", features = ["serde1"] }
regex = "1"
ron = "0.8"
serde = { version = "1", features = ["derive"] }
thiserror = "1"
toml = "0.8"
winit = "0.30"
