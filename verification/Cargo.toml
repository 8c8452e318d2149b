[package]
name = "noc"
version = "0.1.0"
edition = "2021"
publish = false

[dependencies]
chrono = "0.4"
cron = "0.12"
serde = { version = "1", features = ["derive"] }
serde_json = "1"
toml = "0.8"
tokio = { version = "1", features = ["rt-multi-thread", "macros", "net", "time", "process", "sync"] }
axum = { version = "0.7", default-features = false, features = ["tokio", "http1", "json", "form", "query"] }
reqwest = { version = "0.12", default-features = false, features = ["json", "rustls-tls"] }
fantoccini = { version = "0.21", default-features = false, features = ["rustls-tls"] }
windows = { version = "0.52", features = ["implement", "Win32_Foundation", "Win32_System_Ole", "Win32_System_Com", "Win32_System_Variant", "Win32_UI_WindowsAndMessaging", "Win32_Graphics_Gdi", "Win32_Graphics_Direct2D", "Win32_Graphics_Direct2D_Common", "Win32_Graphics_DirectWrite", "Win32_Graphics_Dxgi_Common", "Win32_Graphics_Imaging", "Win32_Networking_WinHttp", "Win32_Security_Cryptography", "Win32_System_Console", "Win32_System_SystemInformation", "Win32_System_WindowsProgramming", "Win32_System_LibraryLoader", "Win32_UI_Input_KeyboardAndMouse", "Win32_System_Threading"] }
