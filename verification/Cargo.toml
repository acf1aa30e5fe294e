[package]
name = "kds_guard"
version = "0.1.0"
edition = "2021"
publish = false

[dependencies]
base64 = "0.22"
chrono = "0.4"
serde = { version = "1", features = ["derive"] }
serde_json = "1"
reqwest = { version = "0.12", default-features = false, features = ["blocking", "rustls-tls"] }
rodio = { version = "0.20", default-features = false, features = ["vorbis"] }
windows = { version = "0.58", features = ["Win32_System_Power"] }
