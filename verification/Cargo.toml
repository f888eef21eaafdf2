[package]
name = "kcam"
version = "0.1.0"
edition = "2021"
publish = false

[dependencies]
image = { version = "=0.24.9", default-features = false, features = ["jpeg"] }
v4l = "=0.14.0"
chrono = "=0.4.45"
dirs = "=7.0.0"
anyhow = "=1.0.104"
log = "=0.4.34"
env_logger = "=0.11.11"
eframe = { version = "0.33", default-features = false, features = ["glow", "default_fonts", "x11"] }
catppuccin-egui = { version = "=5.7.0", default-features = false, features = ["egui33"] }
