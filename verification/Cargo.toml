[package]
name = "composition"
version = "0.1.0"
edition = "2021"
publish = false

[dependencies]
dpi = "0.1"
tracing = "0.1"
webview2-com = "0.38"

[dependencies.windows]
version = "0.61"
features = [
    "Win32_Foundation",
    "Win32_Graphics_DirectComposition",
    "Win32_Graphics_Gdi",
    "Win32_UI_Controls",
    "Win32_UI_Input_KeyboardAndMouse",
    "Win32_UI_Shell",
    "Win32_UI_WindowsAndMessaging",
]
