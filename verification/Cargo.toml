[package]
name = "window_recorder"
version = "0.1.0"
edition = "2021"
publish = false

[dependencies]
napi = "*"
napi-derive = "*"
serde = { version = "*", features = ["derive"] }
windows = { version = "*", features = ["Win32_Foundation", "Win32_Graphics_Gdi", "Win32_System_Threading", "Win32_UI_WindowsAndMessaging"] }
windows-record = "*"
