[package]
name = "studio_loader"
version = "0.1.0"
edition = "2021"
publish = false

[dependencies]
iced-x86 = { version = "=1.21.0", features = ["code_asm"] }
cstring-array = "=0.1.1"
windows = { version = "=0.58.0", features = ["Win32_Foundation", "Win32_System_LibraryLoader", "Win32_System_Environment", "Win32_UI_WindowsAndMessaging", "Win32_Graphics_Gdi", "Win32_UI_Input_KeyboardAndMouse"] }
