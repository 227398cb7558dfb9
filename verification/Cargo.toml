[package]
name = "passivate"
version = "0.1.0"
edition = "2021"
publish = false

[dependencies]
camino = "=1.2.6"
chrono = "=0.4.45"
clap = { version = "=4.6.7", features = ["derive"] }
crossbeam-channel = "=0.5.17"
eframe = { version = "=0.37.0", default-features = false, features = ["default_fonts", "glow", "x11"] }
egui = "=0.37.0"
log = "=0.4.35"
png = "=0.18.1"
serde = { version = "=1.0.229", features = ["derive"] }
thiserror = "=2.0.21"
toml = "=0.9.12"
