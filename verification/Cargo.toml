[package]
name = "live_captions_gtk"
version = "0.1.0"
edition = "2021"
publish = false

[dependencies]
anyhow = "=1.0.104"
bzip2 = "=0.6.1"
cpal = "=0.18.2"
gstreamer = "=0.25.4"
gstreamer-app = "=0.25.2"
gstreamer-audio = "=0.25.4"
gtk4 = "=0.11.5"
kstring = "=2.0.0"
libadwaita = { version = "=0.9.2", features = ["v1_5"] }
libpulse-binding = "=2.30.1"
reqwest = { version = "=0.13.5", features = ["blocking"] }
ringbuf = "=0.6.0"
serde = { version = "=1.0.229", features = ["derive"] }
serde_json = "=1.0.154"
sherpa-onnx = "=2.0.1"
tar = "=0.4.46"
toml = "=1.1.8"
