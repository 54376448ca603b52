[package]
name = "media_organizer"
version = "0.1.0"
edition = "2021"
publish = false

[dependencies]
rusqlite = { version = "0.32", features = ["bundled"] }
chrono = "0.4"
sha2 = "0.10"
serde = { version = "1", features = ["derive"] }
log = "0.4"
env_logger = "0.11"
walkdir = "2"
kamadak-exif = "0.5"
image = { version = "0.25", default-features = false, features = ["jpeg", "png", "gif", "webp", "tiff"] }
tokio = { version = "1", features = ["rt-multi-thread", "macros"] }
