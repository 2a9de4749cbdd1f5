[package]
name = "layout_backend"
version = "0.1.0"
edition = "2021"
publish = false

[dependencies]
log = "*"
notify-debouncer-full = "*"
tauri = { version = "*", default-features = false }
