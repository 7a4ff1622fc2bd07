[package]
name = "triad_player"
version = "0.1.0"
edition = "2021"
publish = false

[dependencies]
clap = { version = "4", features = ["derive"] }
hound = "3.5"
mp3lame-encoder = "*"
spin_sleep = "1"
xsynth-core = "*"
xsynth-realtime = "*"
