[package]
name = "wallpaper_engine"
version = "0.1.0"
edition = "2021"
publish = false

[dependencies]
glob = "0.3"
serde = "1"
serde_derive = "1"
serde_json = "1"
