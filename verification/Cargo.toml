[package]
name = "rust_indicator"
version = "0.1.0"
edition = "2021"
publish = false

[dependencies]
windows = { version = "=0.58.0", features = ["Win32_Foundation", "Win32_Graphics_Gdi", "Win32_Graphics_GdiPlus", "Win32_System_LibraryLoader", "Win32_UI_Input_Ime", "Win32_UI_Shell", "Win32_UI_WindowsAndMessaging"] }
