[package]
name = "sidecar_supervisor"
version = "0.1.0"
edition = "2021"
publish = false

[dependencies]
url = "=2.5.8"
log = "=0.4.34"
tokio = { version = "=1.54.1", features = ["time", "sync", "macros"] }
anyhow = "=1.0.104"
thiserror = "=1.0.69"
home = "=0.5.12"
ureq = "=2.12.1"
image = "=0.25.10"
ocrs = "=0.13.1"
rten = "=0.26.0"
