[package]
name = "blured"
version = "0.1.0"
edition = "2021"
publish = false

[dependencies]
glam = "=0.34.2"
serde = { version = "=1.0.229", features = ["derive"] }
serde_json = "=1.0.154"
toml = "=1.1.8"
shellexpand = "=3.1.2"
anyhow = "=1.0.104"
log = "=0.4.35"
ctrlc = "=3.5.2"
wayland-client = { version = "=0.31.15", features = ["system", "dlopen"] }
wayland-protocols-wlr = { version = "=0.3.12", features = ["client"] }
raw-window-handle = "=0.6.2"
