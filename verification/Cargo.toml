[package]
name = "flappy_birb"
version = "0.1.0"
edition = "2021"
publish = false

[dependencies]
glium = "0.36"
winit = "0.30"
image = { version = "0.25", default-features = false, features = ["png", "ico"] }
egui = "0.33"
egui_glium = "0.33"
env_logger = { version = "0.11", default-features = false }
log = "0.4"
soloud = "1.1"
nalgebra = { version = "0.35", default-features = false, features = ["std"] }
nalgebra-glm = "0.21"
