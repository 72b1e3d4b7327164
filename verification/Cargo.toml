[package]
name = "rust_page_system"
version = "0.1.0"
edition = "2021"
publish = false

[dependencies]
sdl3 = { version = "=0.20.0", features = ["ttf", "image"] }
display-info = "=0.5.10"
fontconfig = "=0.11.0"
gif = "=0.14.2"
gif-dispose = "=6.0.0"
include_dir = "=0.7.4"
once_cell = "=1.21.4"
