[package]
name = "chat_tts"
version = "0.1.0"
edition = "2021"
publish = false

[dependencies]
piper-rs = "=0.1.9"
rodio = "=0.19.0"
