[package]
name = "cartpole"
version = "0.1.0"
edition = "2021"
publish = false

[dependencies]
rand = "*"
random_color = "*"
sdl2 = { version = "*", features = ["gfx", "ttf"] }
