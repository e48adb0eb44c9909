[package]
name = "lumen"
version = "0.1.0"
edition = "2021"
publish = false

[dependencies]
regex = "1"
shellexpand = "3"
serde = { version = "1", features = ["derive"] }
serde_json = "1"
serde_with = "3"
serde_ignored = "0.1"
toml = "0.9"
hex_color = { version = "3", features = ["serde"] }
inotify = "0.11"
tokio = { version = "1", features = ["process", "io-util", "time", "rt", "macros", "sync"] }
log = "0.4"
