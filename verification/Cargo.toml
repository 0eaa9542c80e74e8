[package]
name = "baseview"
version = "0.1.0"
edition = "2021"
publish = false

[dependencies]
keyboard-types = "0.8"
raw-window-handle = "0.6"
iced_core = "0.14"
iced_runtime = "0.14"
iced_futures = { version = "0.14", features = ["thread-pool"] }
iced_program = "0.14"
iced_graphics = "0.14"
iced_debug = "0.14"
x11rb = "0.13"
nix = { version = "0.29", features = ["poll"] }
tracing = "0.1"
thiserror = "2"
window_clipboard = "*"
sysinfo = "*"
x11 = { version = "2", features = ["xlib"] }
