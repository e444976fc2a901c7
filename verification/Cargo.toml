[package]
name = "rg_audio"
version = "0.1.0"
edition = "2021"
publish = false

[dependencies]
rltk = { version = "=0.8.7", default-features = false, features = ["crossterm"] }
rodio = { version = "0.15", default-features = false, features = ["mp3"] }
tokio = { version = "1", features = ["rt-multi-thread", "macros"] }
