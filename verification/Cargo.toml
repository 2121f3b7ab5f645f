[package]
name = "music_browser"
version = "0.1.0"
edition = "2021"
publish = false

[dependencies]
cursive = "0.21"
rodio = "0.21"
