[package]
name = "tray_traffic"
version = "0.1.0"
edition = "2021"
publish = false

[dependencies]
anyhow = "1"
futures = "0.3"
image = { version = "0.24", default-features = false, features = ["png", "ico"] }
imageproc = { version = "0.23", default-features = false }
once_cell = "1"
parking_lot = "0.12"
rusttype = "0.9"
serde_json = "1"
tokio = { version = "1", features = ["macros", "rt", "sync", "time"] }
tokio-tungstenite = "0.24"
