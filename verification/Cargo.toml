[package]
name = "win_gnome"
version = "0.1.0"
edition = "2021"
publish = false

[dependencies]
winapi = { version = "0.3.9", features = ["winuser", "wingdi", "windef", "minwindef", "winnt", "libloaderapi", "errhandlingapi"] }
winit = { version = "0.29", default-features = false, features = ["x11"] }
