[package]
name = "fft2osc"
version = "0.1.0"
edition = "2021"
publish = false

[dependencies]
async-osc = "0.2"
cpal = "0.15"
serde = { version = "1", features = ["derive"] }
spectrum-analyzer = "1"
tokio = { version = "1", features = ["rt-multi-thread", "sync", "time"] }
