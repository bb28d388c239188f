[package]
name = "egui_sdl2"
version = "0.1.0"
edition = "2021"
publish = false

[dependencies]
egui = "=0.32.3"
egui_glow = "=0.32.3"
bytemuck = "=1.25.2"
log = "=0.4.34"
sdl2 = { version = "=0.38.0", default-features = false, features = ["unsafe_textures"] }
sdl2-sys = "=0.38.0"
