[package]
name = "yard"
version = "0.1.0"
edition = "2021"
publish = false

[dependencies]
anyhow = "1"
clap = { version = "4", features = ["derive"] }
clap_complete = "4"
ffmpeg-next = "7"
ironrdp = { version = "0.14", features = ["connector", "core", "displaycontrol", "dvc", "graphics", "input", "pdu", "rdpsnd", "session", "svc"] }
ironrdp-graphics = "0.7"
ironrdp-tokio = "0.8"
pipewire = "0.8"
rpassword = "7"
rustls = "0.23"
serde = { version = "1", features = ["derive"] }
sha2 = "0.10"
tokio = { version = "1", features = ["full"] }
tokio-rustls = "0.26"
toml = "0.9"
tracing = "0.1"
tracing-subscriber = { version = "0.3", features = ["env-filter"] }
x509-cert = "0.2"
