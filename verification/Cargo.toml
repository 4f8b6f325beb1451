[package]
name = "apod_wallpaper"
version = "0.1.0"
edition = "2021"
publish = false

[dependencies]
serde_json = "1"
rand = "0.9"
reqwest = { version = "0.12", default-features = false, features = ["json"] }
tokio = { version = "1", features = ["rt", "macros"] }
clap = { version = "4", features = ["derive"] }
chrono = "0.4"
dirs = "*"
notify-rust = "4"
serde = { version = "1", features = ["derive"] }
