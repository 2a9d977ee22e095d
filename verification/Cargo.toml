[package]
name = "nes_core"
version = "0.1.0"
edition = "2021"

[dependencies]
sdl2 = "0.34"
