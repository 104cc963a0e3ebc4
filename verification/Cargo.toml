[package]
name = "pbrtrs_core"
version = "0.1.0"
edition = "2021"
publish = false

[dependencies]
bumpalo = "=3.20.3"
cgmath = { version = "=0.18.0", features = ["serde"] }
fastrand = "=2.5.0"
image = { version = "=0.24.9", default-features = false, features = ["png", "jpeg", "hdr", "exr"] }
serde = { version = "=1.0.229", features = ["derive"] }
smallvec = "=1.16.4"
threadpool = "=1.8.1"
toml = "=0.8.23"
