[package]
name = "hyprlight"
version = "0.1.0"
edition = "2021"
publish = false

[dependencies]
anyhow = "1"
clap = { version = "4", features = ["derive"] }
notify-rust = "4"
sysinfo = "0.30"
