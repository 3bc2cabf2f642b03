[package]
name = "mediasnare"
version = "1.0.0"
edition = "2021"
publish = false

[dependencies]
anyhow = "1"
futures-util = "0.3"
gstreamer = "0.22"
gstreamer-app = "0.22"
image = { version = "0.25", default-features = false, features = ["png", "jpeg", "webp"] }
once_cell = "1"
relm4 = { version = "0.10.1", features = ["libadwaita"] }
serde = { version = "1", features = ["derive"] }
tokio = { version = "1", features = ["rt-multi-thread", "macros", "sync", "time"] }
toml = "0.8"
tracing = "0.1"
tracing-subscriber = { version = "0.3", features = ["env-filter"] }
zbus = { version = "5", default-features = false, features = ["tokio"] }
zvariant = "5"
