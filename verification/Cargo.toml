[package]
name = "codex-voice"
version = "0.2.0"
edition = "2021"
publish = false

[dependencies]
libc = "0.2"
rusqlite = { version = "*", features = ["bundled"] }
serde = { version = "1", features = ["derive"] }
serde_json = "1"
