[package]
name = "leierkasten_client"
version = "0.1.0"
edition = "2021"
publish = false

[dependencies]
audiopus = "0.2"
cpal = "0.12"
env_logger = "0.7"
futures-util = "0.3"
gfx = "0.18"
gfx_device_gl = "0.16"
gfx_window_glutin = "0.31"
glutin = "0.21"
imgui = "0.4"
imgui-gfx-renderer = "0.4"
imgui-winit-support = { version = "0.4", default-features = false, features = ["winit-19"] }
log = "0.4"
num-integer = "0.1"
serde = { version = "1", features = ["derive"] }
serde_json = "1"
tokio = { version = "0.2", features = ["macros", "rt-threaded", "stream", "sync", "time"] }
tokio-tungstenite = { version = "0.11", default-features = false, features = ["connect"] }
