[package]
name = "terra_app"
version = "0.1.0"
edition = "2021"
publish = false

[dependencies]
directories = "*"
flexi_logger = "*"
log = "0.4"
rfd = "0.15"
serde = { version = "1", features = ["derive"] }
serde_json = "1"
thiserror = "2"
winit = "0.30"
