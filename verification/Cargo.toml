[package]
name = "panes"
version = "0.1.0"
edition = "2021"
publish = false

[dependencies]
serde = { version = "1", features = ["derive"] }
toml = "*"
dirs = "*"
global-hotkey = "*"
tray-icon = "*"
tao = "*"
windows = { version = "*", features = ["Win32_Foundation", "Win32_Graphics_Gdi", "Win32_UI_HiDpi", "Win32_UI_WindowsAndMessaging"] }
windows-registry = "*"
objc2 = "*"
objc2-app-kit = "*"
objc2-foundation = "*"
objc2-service-management = "*"
accessibility = "*"
accessibility-sys = "*"
core-foundation = "*"
core-graphics = "*"
