[package]
name = "gadacz"
version = "0.1.0"
edition = "2021"
publish = false

[dependencies]
color-eyre = "=0.6.5"
crossterm = "=0.25.0"
eyre = "=0.6.14"
glib = "=0.17.10"
gstreamer = "=0.20.7"
gstreamer-pbutils = "=0.20.7"
mp4ameta = "0.12"
serde = { version = "=1.0.229", features = ["derive"] }
serde_json = "=1.0.154"
tui = "=0.19.0"
