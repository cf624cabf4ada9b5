[package]
name = "overlay_core"
version = "0.1.0"
edition = "2021"
publish = false

[dependencies]
egui = "0.27"
egui_glow = "0.27"
glow = "0.13"
gl_loader = "0.1"
retour = "0.3"
windows = { version = "0.52", features = ["Win32_Foundation", "Win32_Graphics_Gdi", "Win32_Graphics_OpenGL", "Win32_System_LibraryLoader", "Win32_UI_WindowsAndMessaging", "Win32_UI_Input_KeyboardAndMouse", "Wdk_System_SystemInformation"] }
