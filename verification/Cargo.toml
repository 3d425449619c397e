[package]
name = "stardust_xr_molecules"
version = "0.1.0"
edition = "2021"
publish = false

[dependencies]
rustc-hash = "=2.1.3"
glam = { version = "0.28", features = ["mint"] }
mint = "=0.5.9"
stardust-xr-fusion = "=0.43.2"
tokio = { version = "1", features = ["sync", "rt"] }
tracing = "0.1"
