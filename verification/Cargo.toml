[package]
name = "mandelwow"
version = "0.1.0"
edition = "2021"
publish = false

[dependencies]
cgmath = "=0.18.0"
glium = "=0.30.2"
image = "=0.24.9"
libxm = "=1.1.1"
sdl2 = "=0.35.2"
rust-rocket = "*"
