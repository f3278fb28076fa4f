[package]
name = "gpu-setfan"
version = "0.1.0"
edition = "2021"
publish = false

[dependencies]
anyhow = "1"
clap = { version = "4", features = ["derive"] }
ctrlc = "3"
nvml-wrapper = "*"
thiserror = "*"
tracing = "0.1"
tracing-subscriber = "0.3"
tracing-appender = "0.2"
