[package]
name = "tasker"
version = "0.1.0"
edition = "2021"
publish = false

[dependencies]
chrono = "=0.4.45"
clap = { version = "=4.6.7", features = ["derive"] }
eframe = { version = "0.31", default-features = false, features = ["default_fonts", "glow", "wayland"] }
serde = { version = "=1.0.229", features = ["derive"] }
serde_json = "=1.0.154"
