[package]
name = "voop"
version = "0.1.0"
edition = "2021"
publish = false

[dependencies]
bytemuck = { version = "1", features = ["derive"] }
env_logger = "*"
ffmpeg-next = "7"
log = "*"
pollster = "*"
rusty_link = "*"
sdl2 = "*"
