[package]
name = "esolang_ide"
version = "0.1.0"
edition = "2021"
publish = false

[dependencies]
encoding_rs = "=0.8.44"
anyhow = "=1.0.104"
thiserror = "=2.0.21"
log = "=0.4.35"
serde = { version = "=1.0.229", features = ["derive"] }
serde_json = "=1.0.154"
tempfile = "=3.27.0"
config = { version = "=0.15.27", default-features = false, features = ["toml"] }
egui = "=0.34.3"
eframe = { version = "=0.34.3", default-features = false, features = ["default_fonts", "glow", "x11"] }
egui_code_editor = "=0.2.27"
rfd = { version = "=0.17.2", default-features = false, features = ["xdg-portal"] }
