[package]
name = "board_assets"
version = "0.1.0"
edition = "2021"
publish = false

[dependencies]
anyhow = "1"
env_logger = "*"
futures-intrusive = "*"
png = "*"
pollster = "*"
vello = "*"
