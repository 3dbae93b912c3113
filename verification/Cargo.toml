[package]
name = "dwm_decorator"
version = "0.1.0"
edition = "2021"
publish = false

[dependencies]
csscolorparser = "=0.9.0"
config = { version = "=0.15.27", default-features = false, features = ["toml"] }
handy-keys = "=0.3.4"
serde = { version = "=1.0.229", features = ["derive"] }
tracing = "=0.1.44"
tracing-appender = "=0.2.5"
tracing-subscriber = "=0.3.23"
windows = { version = "=0.61.3", features = ["Win32_Foundation", "Win32_Graphics_Dwm", "Win32_System_Com", "Win32_System_Threading", "Win32_UI_Accessibility", "Win32_UI_WindowsAndMessaging"] }
