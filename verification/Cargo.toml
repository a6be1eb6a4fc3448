[package]
name = "wlrip"
version = "0.1.0"
edition = "2021"
publish = false

[dependencies]
glam = "*"
rand = "0.9"
rand_distr = "0.5"
egui = "*"
egui_glow = { version = "*", default-features = false }
khronos-egl = { version = "6", features = ["dynamic"] }
smithay-client-toolkit = { version = "*", default-features = false }
wayland-client = "*"
wayland-egl = "*"
