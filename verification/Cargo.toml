[package]
name = "nitrogen_core"
version = "0.1.0"
edition = "2021"
publish = false

[dependencies]
anyhow = "=1.0.104"
ashpd = { version = "=0.13.13", features = ["screencast"] }
axum = "=0.8.9"
bytemuck = "=1.25.2"
bytes = "=1.12.1"
clap = { version = "=4.6.7", features = ["derive"] }
dirs = "=7.0.0"
evdev = "=0.13.2"
ffmpeg-next = "=9.0.0"
libc = "=0.2.191"
libloading = "=0.9.0"
parking_lot = "=0.13.0"
pipewire = "=0.10.1"
serde = { version = "=1.0.229", features = ["derive"] }
serde_json = "=1.0.154"
thiserror = "=2.0.21"
tokio = { version = "=1.54.1", features = ["full"] }
toml = "=1.1.8"
tracing = "=0.1.44"
tracing-subscriber = { version = "=0.3.23", features = ["env-filter"] }
zbus = "=6.2.1"
