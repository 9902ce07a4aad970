[package]
name = "sprig_emu"
version = "0.1.0"
edition = "2021"
publish = false

[dependencies]
hashbrown = "0.14"
embedded-graphics = "0.8"
embedded-graphics-framebuf = "*"
embedded-graphics-simulator = "*"
tinytga = "*"
