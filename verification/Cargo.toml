[package]
name = "windowing"
version = "0.1.0"
edition = "2021"
publish = false

[dependencies]
raw-window-handle = "=0.3.4"
winapi = { version = "0.3", features = ["winuser", "wingdi", "libloaderapi", "minwindef", "windef", "errhandlingapi"] }
