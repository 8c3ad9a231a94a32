[package]
name = "valens"
version = "0.1.0"
edition = "2021"
publish = false

[dependencies]
uuid = { version = "1", features = ["v4", "serde"] }
serde = { version = "1", features = ["derive"] }
log = "0.4"
rusqlite = { version = "*", features = ["bundled"] }
rusqlite_migration = "*"
eframe = { version = "*", default-features = false, features = ["default_fonts", "glow", "persistence", "x11"] }
egui = "*"
egui_extras = "*"
