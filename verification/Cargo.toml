[package]
name = "time_manager"
version = "0.1.0"
edition = "2021"
publish = false

[dependencies]
chrono = { version = "0.4", features = ["serde"] }
uuid = { version = "1", features = ["v4", "serde"] }
serde = { version = "1", features = ["derive"] }
serde_json = "1"
walkdir = "2"
clap = { version = "4", features = ["derive"] }
toml = "*"
directories = "*"
thiserror = "*"
globset = "0.4"
rusqlite = { version = "*", features = ["bundled"] }
