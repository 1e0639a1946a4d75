[package]
name = "screenhop"
version = "0.1.0"
edition = "2021"
publish = false

[dependencies]
semver = "=1.0.28"
anyhow = "=1.0.104"
log = "=0.4.34"
env_logger = "=0.11.11"
dirs = "=5.0.1"
serde = { version = "=1.0.229", features = ["derive"] }
toml = "=0.8.23"
reqwest = { version = "=0.12.28", default-features = false, features = ["json", "stream", "socks", "rustls-tls"] }
tokio = { version = "=1.54.1", features = ["rt", "fs", "io-util", "macros"] }
futures-util = "=0.3.34"
zip = "=2.6.1"
image = { version = "=0.25.10", default-features = false, features = ["png"] }
objc = "=0.2.7"
cocoa = "=0.26.1"
core-foundation = "=0.10.1"
core-graphics = "=0.24.0"
windows = { version = "0.58", features = ["Win32_Foundation", "Win32_Graphics_Gdi", "Win32_System_LibraryLoader", "Win32_UI_WindowsAndMessaging"] }
muda = "*"
tray-icon = "*"
