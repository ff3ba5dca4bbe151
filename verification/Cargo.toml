[package]
name = "beatmap_downloader"
version = "0.1.0"
edition = "2021"
publish = false

[dependencies]
async-trait = "0.1"
crossbeam = "0.8"
eframe = { version = "0.31", default-features = false, features = ["glow", "default_fonts", "x11"] }
eyre = "0.6"
reqwest = { version = "0.12", default-features = false, features = ["json", "rustls-tls"] }
rosu-v2 = { version = "*", default-features = false }
serde = { version = "1", features = ["derive"] }
serde_yaml = "0.9"
strfmt = "0.2"
thiserror = "2"
tokio = { version = "1", features = ["rt", "rt-multi-thread"] }
urlencoding = "2"
