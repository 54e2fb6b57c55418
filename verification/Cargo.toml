[package]
name = "pushboard"
version = "0.1.0"
edition = "2021"
publish = false

[dependencies]
hound = "3.5"
kira = "0.10"
log = "0.4"
env_logger = "0.11"
dirs = "6"
tokio = { version = "1", features = ["rt-multi-thread", "macros", "fs", "time"] }
serde = { version = "1", features = ["derive"] }
embedded-graphics = "0.8"
pipewire = "0.9"
