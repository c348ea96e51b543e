[package]
name = "audio_tetris"
version = "0.1.0"
edition = "2021"
publish = false

[dependencies]
rand = "0.8"
sys-locale = "0.3"
serde = { version = "1", features = ["derive"] }
serde_json = "1"
rusqlite = { version = "0.32", features = ["bundled"] }
rust-i18n = "3"
lofty = "*"
rodio = "0.20"
tolk = "*"
wxdragon = "*"
image = { version = "0.25", default-features = false, features = ["png"] }
