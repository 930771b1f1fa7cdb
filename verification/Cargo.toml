[package]
name = "nanometers"
version = "0.1.0"
edition = "2021"
publish = false

[dependencies]
serde = { version = "1", features = ["derive"] }
toml = "0.8"
egui = "0.27"
interprocess = "1"
cpal = "0.15"
ruhear = "*"
rustfft = "6"
