[package]
name = "voicepool"
version = "0.1.0"
edition = "2021"
publish = false

[dependencies]
web-audio-api = { version = "=1.7.0", default-features = false }
