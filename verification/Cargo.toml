[package]
name = "navcore"
version = "0.1.0"
edition = "2021"
publish = false

[dependencies]
serde = { version = "=1.0.229", features = ["derive"] }
serde_json = "=1.0.151"
jni = "=0.21.1"
gpx = "=0.10.0"
