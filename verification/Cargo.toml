[package]
name = "ffr"
version = "0.1.0"
edition = "2021"
publish = false

[dependencies]
ash = "=0.38.0"
glam = "0.29"
libloading = "=0.8.9"
once_cell = "=1.21.4"
openxr = { version = "0.19", features = ["loaded"] }
openxr-sys = "0.11"
serde = { version = "1", features = ["derive"] }
toml = "=0.8.23"
tracing = "0.1"
tracing-appender = "0.2"
tracing-subscriber = { version = "0.3", features = ["env-filter"] }
