[package]
name = "flm-daemon"
version = "0.1.0"
edition = "2021"
publish = false

[dependencies]
anyhow = "=1.0.104"
serde = { version = "=1.0.229", features = ["derive"] }
toml = "=0.8.23"
x11rb = { version = "=0.13.2", features = ["randr"] }
gstreamer = "=0.22.8"
ksni = { version = "=0.3.7", features = ["blocking"] }
