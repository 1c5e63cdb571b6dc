[package]
name = "antisupport"
version = "0.1.0"
edition = "2021"
publish = false

[dependencies]
chrono = { version = "=0.4.45", default-features = false, features = ["clock"] }
eframe = { version = "0.29", default-features = false, features = ["default_fonts", "glow"] }
hex = "=0.4.3"
mac_address = "1.1"
reqwest = { version = "0.12", default-features = false, features = ["json", "rustls-tls"] }
serde = { version = "1", features = ["derive"] }
sha2 = "=0.10.9"
sysinfo = { version = "0.32", default-features = false, features = ["system"] }
tokio = { version = "1", features = ["rt-multi-thread", "sync"] }
winapi = { version = "0.3", features = ["winuser"] }
winit = { version = "0.30", default-features = false, features = ["x11"] }
