[package]
name = "warp_tui"
version = "0.1.0"
edition = "2021"
publish = false

[dependencies]
unicode-width = "=0.2.3"
unicode-segmentation = "=1.13.3"
uuid = "1"
serde_json = "1"
anyhow = "1"
clap = { version = "4", features = ["derive", "env"] }
