[package]
name = "winforge"
version = "0.1.0"
edition = "2021"
publish = false

[dependencies]
sha2 = "0.10"
serde = { version = "1", features = ["derive"] }
serde_json = "1"
crossbeam-channel = "0.5"
tokio = { version = "1", features = ["rt-multi-thread", "macros", "net", "io-util", "time", "sync"] }
axum = "*"
tower-http = { version = "*", features = ["cors"] }
r2d2 = "*"
r2d2_sqlite = { version = "*", features = ["bundled"] }
dirs = "*"
chrono = "*"
tracing = "*"
tracing-subscriber = "*"
lopdf = "*"
pdfium-render = "*"
windows-sys = { version = "*", features = ["Win32_Foundation", "Win32_UI_WindowsAndMessaging"] }
