[package]
name = "fast_exif_reader"
version = "0.11.3"
edition = "2021"
publish = false

[dependencies]
chrono = "=0.4.45"
memmap2 = "=0.9.12"
rayon = "=1.12.0"
thiserror = "=1.0.69"
rusqlite = { version = "*", features = ["bundled"] }
serde = { version = "1", features = ["derive"] }
serde_json = "1"
