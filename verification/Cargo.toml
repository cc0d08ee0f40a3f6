[package]
name = "raindesk"
version = "0.1.0"
edition = "2021"
publish = false

[dependencies]
bytemuck = "=1.25.2"
directories = "=6.0.0"
glow = "=0.18.0"
khronos-egl = { version = "=6.0.0", features = ["dynamic"] }
libloading = "=0.8.9"
notify-rust = "=4.18.2"
serde = { version = "=1.0.229", features = ["derive"] }
thiserror = "=2.0.21"
toml = "=1.1.7"
wayland-client = "=0.31.15"
wayland-egl = "=0.32.11"
wayland-protocols-wlr = { version = "=0.3.12", features = ["client"] }
# No file imports wayland-sys; the line only turns on its dlopen feature, so
# the wayland stack binds libwayland at runtime instead of linking it at
# build time, which needs no native development files.
wayland-sys = { version = "=0.31.11", features = ["dlopen"] }
