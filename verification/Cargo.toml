[package]
name = "terminal_engine"
version = "0.1.0"
edition = "2021"
publish = false

[dependencies]
vt100 = "0.15"
uuid = { version = "1", features = ["v4"] }
tokio = { version = "1", features = ["sync", "time", "rt"] }
parking_lot = "0.12"
portable-pty = "0.8"
serde = { version = "1", features = ["derive"] }
thiserror = "1"
log = "0.4"
tauri = { version = "2", default-features = false }
