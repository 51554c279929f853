[package]
name = "vortex_launcher"
version = "0.1.0"
edition = "2021"
publish = false

[dependencies]
dirs = "*"
eframe = { version = "*", default-features = false, features = ["default_fonts", "glow", "wayland", "x11"] }
flate2 = "*"
png = "*"
serde = { version = "*", features = ["derive"] }
serde_json = "*"
sha2 = "*"
tar = "*"
ureq = "*"
zip = { version = "*", default-features = false, features = ["deflate"] }
