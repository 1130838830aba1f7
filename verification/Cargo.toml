[package]
name = "laufey"
version = "0.1.0"
edition = "2021"
publish = false

[dependencies]
winit = { version = "=0.30.13", default-features = false, features = ["x11", "rwh_06"] }
muda = { version = "=0.21.2", default-features = false }
rfd = { version = "=0.17.2", default-features = false, features = ["xdg-portal"] }
libloading = "0.8"
raw-window-handle = "0.6"
tokio = { version = "1", features = ["rt", "sync", "time"] }
windows-sys = { version = "0.59", features = ["Win32_Foundation", "Win32_UI_HiDpi", "Win32_UI_WindowsAndMessaging", "Win32_Graphics_Gdi"] }
