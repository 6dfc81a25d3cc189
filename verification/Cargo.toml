[package]
name = "codex_supervisor"
version = "0.1.0"
edition = "2021"
publish = false

[dependencies]
subtle = "=2.6.1"
uuid = "=1.29.0"
rustix = { version = "=1.1.6", features = ["event", "fs", "process"] }
