[package]
name = "p2p_screenshare"
version = "0.1.0"
edition = "2021"
publish = false

[dependencies]
anyhow = "=1.0.104"
ashpd = { version = "=0.13.13", default-features = false, features = ["tokio", "screencast"] }
async-trait = "=0.1.92"
ffmpeg-next = "=9.0.0"
futures = "=0.3.34"
gtk4 = "=0.11.5"
libc = "=0.2.191"
libp2p = { version = "=0.57.1", features = ["mdns", "tokio", "quic", "macros"] }
pipewire = "=0.10.1"
tokio = { version = "=1.54.1", features = ["full"] }
tracing = "=0.1.44"
tracing-subscriber = { version = "=0.3.23", features = ["env-filter"] }
uuid = { version = "=1.29.0", features = ["v4"] }
