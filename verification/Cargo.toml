[package]
name = "vulcan_lights"
version = "0.1.0"
edition = "2021"
publish = false

[dependencies]
clap = "2"
ron = "0.8"
serde = { version = "1", features = ["derive"] }
