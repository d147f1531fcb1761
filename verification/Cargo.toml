[package]
name = "game_dispatcher"
version = "0.1.0"
edition = "2021"
publish = false

[dependencies]
tokio = { version = "*", features = ["process", "rt-multi-thread", "macros"] }
sysinfo = "*"
serde = { version = "*", features = ["derive"] }
serde_json = "*"
