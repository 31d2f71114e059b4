[package]
name = "motion_bridge"
version = "0.1.0"
edition = "2021"
rust-version = "1.95"
publish = false

[dependencies]
tokio = { version = "=1.54.1", default-features = false, features = ["sync", "time", "rt", "macros"] }
gstreamer = "0.23"
gstreamer-app = "0.23"
