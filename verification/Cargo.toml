[package]
name = "wayland_window"
version = "0.1.0"
edition = "2021"
publish = false

[dependencies]
anyhow = "1"
async-channel = "1"
async-trait = "0.1"
glium = { version = "*", default-features = false }
log = "0.4"
raw-window-handle = "0.5"
smithay-client-toolkit = "0.17"
wayland-client = "0.30"
wayland-egl = "0.30"
