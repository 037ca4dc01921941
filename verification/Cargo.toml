[package]
name = "album_art"
version = "0.1.0"
edition = "2021"
publish = false

[dependencies]
chrono = "*"
mpd_client = "*"
reqwest = { version = "*", default-features = false, features = ["json"] }
serde = { version = "*", features = ["derive"] }
serde_json = "*"
