[package]
name = "playback"
version = "0.1.0"
edition = "2021"
publish = false

[dependencies]
clap = { version = "4", features = ["derive"] }
parking_lot = "0.12"
rodio = "*"
tokio = { version = "1", default-features = false, features = ["sync", "rt", "rt-multi-thread", "time", "macros"] }
