[package]
name = "camera_calibration"
version = "0.1.0"
edition = "2021"
publish = false

[dependencies]
anyhow = "1"
env_logger = "0.11"
opencv = "0.88"
