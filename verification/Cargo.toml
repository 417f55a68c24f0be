[package]
name = "kiosk_ui"
version = "0.1.0"
edition = "2021"
publish = false

[dependencies]
image = "=0.25.10"
json = "=0.12.4"
curl = "=0.4.50"
sdl2 = { version = "=0.38.0", features = ["image", "ttf"] }
