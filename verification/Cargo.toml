[package]
name = "boardx"
version = "0.1.0"
edition = "2021"
publish = false

[dependencies]
uuid = { version = "=1.27.0", features = ["v4"] }
rusqlite = { version = "=0.40.2", features = ["bundled"] }
eframe = { version = "=0.36.2", default-features = false, features = ["glow", "default_fonts", "x11"] }
egui = "=0.36.2"
