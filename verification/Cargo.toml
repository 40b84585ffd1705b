[package]
name = "vp-link"
version = "0.1.0"
edition = "2021"
publish = false

[dependencies]
ashpd = { version = "=0.11.1", default-features = false, features = ["tokio"] }
cosmic-client-toolkit = "=0.2.0"
dirs = "=6.0.0"
evdev = "=0.13.2"
gstreamer = "=0.23.7"
gstreamer-app = "=0.23.5"
gstreamer-video = "=0.23.6"
ksni = "=0.2.2"
serde = { version = "=1.0.229", features = ["derive"] }
tokio = { version = "=1.54.1", features = ["rt", "time"] }
toml = "=0.8.23"
