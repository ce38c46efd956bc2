[package]
name = "movie_viewer"
version = "0.1.0"
edition = "2021"
publish = false

[dependencies]
iced = { version = "=0.10.0", default-features = false }
native-dialog = "=0.7.0"
walkdir = "=2.5.0"
serde = { version = "1", features = ["derive"] }
toml = "=0.8.23"
