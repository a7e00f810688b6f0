[package]
name = "smolvm_tray"
version = "0.1.0"
edition = "2021"
publish = false

[dependencies]
slint = { version = "1.17", default-features = false, features = ["std", "compat-1-2"] }
windows-sys = { version = "0.59", features = ["Win32_Foundation", "Win32_Security", "Win32_System_Threading"] }
