[package]
name = "motion_patch"
version = "0.1.0"
edition = "2021"
publish = false

[dependencies]
clap = { version = "4", features = ["derive"] }
hash40 = "1.3.1"
serde = { version = "1", features = ["derive"] }
serde_yaml = "0.9"
