[package]
name = "riri_imgui_hook"
version = "0.1.0"
edition = "2021"
publish = false

[dependencies]
glam = "0.30"
imgui = "=0.12.0"
proc-macro2 = "1"
quote = "1"
syn = { version = "2", features = ["full"] }
windows = { version = "0.61", features = ["Win32_Foundation", "Win32_Graphics_Direct3D", "Win32_Graphics_Direct3D11", "Win32_Graphics_Direct3D12", "Win32_Graphics_Dxgi", "Win32_Graphics_Dxgi_Common", "Win32_Graphics_Gdi", "Win32_Security", "Win32_System_LibraryLoader", "Win32_System_Threading", "Win32_UI_Input_KeyboardAndMouse", "Win32_UI_WindowsAndMessaging"] }
windows-core = "0.61"
