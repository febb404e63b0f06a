[package]
name = "baton"
version = "0.1.0"
edition = "2021"
publish = false

[dependencies]
glob = "0.3"
log = "0.4"
env_logger = "0.11"
windows-sys = { version = "0.60", features = ["Win32_Foundation", "Win32_Security", "Win32_Storage_FileSystem", "Win32_System_IO", "Win32_System_Threading", "Win32_System_Console", "Win32_UI_WindowsAndMessaging"] }
