[package]
name = "compo-platform-loop"
version = "0.1.0"
edition = "2021"
publish = false

[dependencies]
compo = "*"
jni = "0.21"
tracing = "0.1"
windows = { version = "*", default-features = false, features = ["Win32_Foundation", "Win32_Graphics_Gdi", "Win32_UI_WindowsAndMessaging"] }
objc2 = "*"
block2 = "*"
objc2-foundation = "*"
objc2-app-kit = "*"
objc2-ui-kit = "*"
