[package]
name = "rs_board"
version = "0.1.0"
edition = "2021"
publish = false

[dependencies]
arboard = "=3.7.0"
chrono = { version = "=0.4.45", default-features = false, features = ["clock", "serde"] }
eframe = { version = "=0.37.0", default-features = false, features = ["default_fonts", "glow", "x11"] }
egui = { version = "=0.37.0", default-features = false }
image = { version = "=0.25.10", default-features = false, features = ["png", "tiff"] }
serde = { version = "=1.0.229", features = ["derive"] }
serde_json = "=1.0.154"
single-instance = "=0.3.3"
thiserror = "=2.0.21"
uuid = { version = "=1.29.0", features = ["serde", "v4"] }
