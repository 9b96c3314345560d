[package]
name = "oliver_explorer"
version = "0.1.0"
edition = "2021"
publish = false

[dependencies]
url = "2"
scraper = { version = "*", default-features = false }
reqwest = { version = "0.12", default-features = false, features = ["blocking", "default-tls"] }
eframe = { version = "0.31", default-features = false, features = ["default_fonts", "glow", "x11"] }
egui_extras = { version = "0.31", default-features = false }
