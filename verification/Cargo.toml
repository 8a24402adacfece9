[package]
name = "study_helper"
version = "0.1.0"
edition = "2021"
publish = false

[dependencies]
sanitize-filename = "*"
serde = { version = "1", features = ["derive"] }
serde_json = "1"
log = "0.4"
env_logger = "*"
eframe = { version = "0.29", default-features = false, features = ["glow", "default_fonts", "x11"] }
rfd = "*"
