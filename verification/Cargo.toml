[package]
name = "whisperkeys"
version = "0.1.0"
edition = "2021"
publish = false

[dependencies]
anyhow = "1"
fastrand = "2"
json5 = "0.4"
kira = "0.10"
open = "5"
rayon = "1"
rdev = "0.5"
serde = { version = "1", features = ["derive"] }
serde_json = "1"
