[package]
name = "cef_renderer"
version = "0.1.0"
edition = "2021"
publish = false

[dependencies]
anyhow = "=1.0.104"
cef = { version = "=142.5.1", default-features = false, features = ["accelerated_osr", "dox"] }
futures = { version = "=0.3.34", default-features = false, features = ["std"] }
slint = { version = "=1.18.1", default-features = false, features = ["compat-1-18", "std"] }
tracing = "=0.1.44"
wgpu = { version = "=27.0.1", default-features = false, features = ["std"] }
