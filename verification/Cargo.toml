[package]
name = "project_timer"
version = "0.1.0"
edition = "2021"
publish = false

[dependencies]
better-panic = "=0.3.0"
chrono = "=0.4.45"
env_logger = "=0.11.11"
ratatui = "=0.30.2"
serde = { version = "=1.0.229", features = ["derive"] }
serde_json = "=1.0.154"
tui_confirm_dialog = "=0.4.1"
tui-input = { version = "=0.11.1", default-features = false }
