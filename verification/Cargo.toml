[package]
name = "solis"
version = "0.1.0"
edition = "2021"
publish = false

[dependencies]
cpal = "0.15"
ollama-rs = "0.3"
rubato = "0.16"
serde = { version = "1", features = ["derive"] }
serde_json = "1"
serde_with = "3"
socket2 = "0.5"
whisper-rs = "0.15"
