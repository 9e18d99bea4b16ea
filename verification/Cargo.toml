[package]
name = "resonate"
version = "0.1.0"
edition = "2021"
publish = false

[dependencies]
fuzzy-matcher = "=0.3.7"
async-channel = "=2.5.0"
crossbeam-channel = "=0.5.17"
rusqlite = { version = "=0.32.1", features = ["bundled"] }
directories = "=5.0.1"
image = { version = "=0.25.10", default-features = false, features = ["png", "webp"] }
tokio = { version = "=1.54.1", features = ["rt-multi-thread", "process", "time", "io-util", "macros"] }
rodio = "=0.20.1"
youtube_dl = { version = "=0.10.0", default-features = false, features = ["tokio", "downloader-native-tls"] }
discord-rich-presence = "=0.2.5"
