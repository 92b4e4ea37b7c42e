[package]
name = "xyzvec"
version = "0.1.0"
edition = "2021"
publish = false

[dependencies]
fixed = "*"
cordic = "*"
serde = { version = "*", features = ["derive"] }
