[package]
name = "wav2srt"
version = "0.1.0"
edition = "2021"
publish = false

[dependencies]
hound = "*"
atty = "*"
clap = { version = "*", features = ["derive"] }
whisper-rs = "*"
