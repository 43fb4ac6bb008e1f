[package]
name = "baam_injector"
version = "0.1.0"
edition = "2021"
publish = false

[dependencies]
eframe = { version = "0.27", default-features = false, features = ["glow", "default_fonts"] }
serde = { version = "1", features = ["derive"] }
webbrowser = "*"
