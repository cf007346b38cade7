[package]
name = "awaza"
version = "0.1.0"
edition = "2021"
publish = false

[dependencies]
timed-fsm = "=0.5.0"
windows = { version = "0.62", features = ["Win32_Foundation", "Win32_Graphics_Gdi", "Win32_Security", "Win32_System_Com", "Win32_System_LibraryLoader", "Win32_System_Registry", "Win32_UI_TextServices", "Win32_UI_WindowsAndMessaging"] }
windows-core = "0.62"
