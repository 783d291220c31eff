[package]
name = "orchestration_viewer"
version = "0.1.0"
edition = "2021"
publish = false

[dependencies]
chrono = "0.4"
mockall = "0.13"
