[package]
name = "chip8-vm"
version = "0.1.0"
edition = "2021"
publish = false

[dependencies]
rand = "0.8"
sdl2 = "0.35"
clap = { version = "4", features = ["derive"] }
