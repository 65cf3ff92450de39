[package]
name = "mesh_world"
version = "0.1.0"
edition = "2021"
publish = false

[dependencies]
seeded-random = "=0.6.0"
cgl-rs = "=0.1.7"
egui = "=0.31.1"
egui_gl_glfw = { version = "=0.1.13", default-features = false, features = ["clipboard", "glfw-raw-window-handle-v0-6", "egui-default_fonts"] }
gl = "=0.14.0"
glfw = { version = "=0.59.0", default-features = false, features = ["raw-window-handle-v0-6"] }
nalgebra-glm = "=0.21.0"
bytemuck = "=1.25.2"
image = { version = "=0.25.10", default-features = false, features = ["png"] }
ds-heightmap = "=0.2.1"
