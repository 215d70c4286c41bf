[package]
name = "dynamic_terrain"
version = "0.1.0"
edition = "2021"
publish = false

[dependencies]
fastnoise-lite = "*"
image = { version = "*", default-features = false, features = ["png", "jpeg"] }
three-d = "*"
three-d-asset = { version = "*", features = ["png", "jpeg"] }
tokio = { version = "*", features = ["macros", "rt-multi-thread"] }
