[package]
name = "chip8_ui"
version = "0.1.0"
edition = "2021"
publish = false

[dependencies]
chip8_vm = "*"
piston = "*"
piston2d-graphics = "*"
piston2d-opengl_graphics = "*"
pistoncore-sdl2_window = "*"
docopt = "*"
rustc-serialize = "*"
serde = { version = "*", features = ["derive"] }
log = "*"
env_logger = "*"
