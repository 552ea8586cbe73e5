[package]
name = "ups_monitor"
version = "0.1.0"
edition = "2021"
publish = false

[dependencies]
chrono = "=0.4.45"
hidapi = "2"
log = "0.4"
rodio = { version = "0.20", default-features = false, features = ["wav", "mp3"] }
serde = { version = "1", features = ["derive"] }
serde_json = "1"
