[package]
name = "cthulock"
version = "0.1.0"
edition = "2021"
publish = false

[dependencies]
glutin = { version = "=0.32.3", default-features = false, features = ["egl", "wayland"] }
log = "0.4"
raw-window-handle = "=0.6.2"
slint = { version = "=1.7.2", default-features = false, features = ["std", "compat-1-2", "renderer-femtovg"] }
wayland-backend = { version = "=0.3.17", features = ["client_system", "dlopen"] }
wayland-client = "=0.31.15"
