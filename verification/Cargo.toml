[package]
name = "voice_input"
version = "0.1.0"
edition = "2021"
publish = false

[dependencies]
arboard = "*"
cpal = "*"
directories = "*"
fs2 = "*"
rdev = "*"
reqwest = { version = "*", default-features = false, features = ["blocking", "rustls-tls"] }
serde = { version = "*", features = ["derive"] }
serde_json = "*"
sys-locale = "*"
whisper-rs = "*"
