[package]
name = "klamath_util"
version = "0.1.0"
edition = "2021"
publish = false

[dependencies]
atty = "0.2"
clap = "2"
dirs = "*"
serde = { version = "1", features = ["derive"] }
serde_yaml = "*"
tinyvec = { version = "1", features = ["alloc"] }
