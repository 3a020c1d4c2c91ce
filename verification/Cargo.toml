[package]
name = "yuumi"
version = "0.1.0"
edition = "2021"
publish = false

[dependencies]
anyhow = "1"
base64 = "0.21"
bincode = "1"
cgmath = "0.18"
gltf = "1"
log = "0.4"
png = "0.17"
pretty_env_logger = "0.5"
serde = { version = "1", features = ["derive"] }
thiserror = "1"
vulkanalia = { version = "0.21", features = ["libloading", "window"] }
winit = { version = "0.28", default-features = false, features = ["x11"] }
