[package]
name = "encode_bridge"
version = "0.1.0"
edition = "2021"
publish = false

[dependencies]
anyhow = "1"
axum = "0.7"
chrono = { version = "0.4", features = ["serde"] }
futures-util = "0.3"
iced = { version = "*", default-features = false, features = ["tiny-skia", "tokio"] }
reqwest = { version = "0.12", default-features = false, features = ["json", "multipart", "stream"] }
serde = { version = "1", features = ["derive"] }
serde_json = "1"
tokio = { version = "1", features = ["full"] }
toml = "0.8"
tracing = "0.1"
tracing-subscriber = { version = "0.3", features = ["env-filter"] }
tray-icon = "*"
uuid = { version = "1", features = ["v4", "serde"] }
windows-sys = { version = "*", features = ["Win32_System_Console", "Win32_UI_WindowsAndMessaging", "Win32_Foundation"] }
