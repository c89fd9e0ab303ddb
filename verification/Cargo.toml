[package]
name = "racing_physics"
version = "0.1.0"
edition = "2021"
publish = false

[dependencies]
itertools = "0.10"
nalgebra = "0.32"
glow = "0.12"
sdl2 = { version = "0.35", features = ["image"] }
clap = { version = "4", features = ["derive"] }
simplelog = "0.12"
log = "0.4"
anyhow = "1"
