[package]
name = "camera_overlay"
version = "0.1.0"
edition = "2021"
publish = false

[dependencies]
fast_image_resize = "=2.7.3"
image = { version = "=0.24.9", default-features = false, features = ["jpeg"] }
time = { version = "=0.3.55", features = ["formatting", "local-offset"] }
once_cell = "=1.21.4"
nokhwa = { version = "=0.10.11", features = ["camera-sync-impl"] }
minifb = "=0.29.0"
