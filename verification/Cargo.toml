[package]
name = "magnus"
version = "0.1.0"
edition = "2021"
publish = false

[dependencies]
chrono = "=0.4.45"
fern = { version = "=0.7.1", features = ["colored"] }
gl = "=0.14.0"
glfw = "=0.37.0"
log = "=0.4.34"
serde = { version = "=1.0.229", features = ["derive"] }
serde_json = "=1.0.154"
vulkano = "=0.18.0"
vulkano-glfw-v2 = "=0.2.0"
