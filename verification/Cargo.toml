[package]
name = "satellite_wallpaper"
version = "0.1.0"
edition = "2021"
publish = false

[dependencies]
image = { version = "0.25", default-features = false, features = ["png", "jpeg"] }
fast_image_resize = "5"
chrono = "0.4"
time = "0.3"
minreq = { version = "2", features = ["https"] }
anyhow = "1"
serde = { version = "1", features = ["derive"] }
toml = "0.8"
log = "0.4"
env_logger = "0.11"
dirs = "5"
wallpaper = "3"
