[package]
name = "copy_type"
version = "0.1.0"
edition = "2021"
publish = false

[dependencies]
toml = "0.8"
rand = "0.8"
global-hotkey = "0.6"
serde = { version = "1", features = ["derive"] }
serde_json = "1"
dirs = "5"
log = "0.4"
env_logger = { version = "0.11", default-features = false }
arboard = { version = "3", default-features = false }
enigo = "0.2"
raw-window-handle = "0.6"
