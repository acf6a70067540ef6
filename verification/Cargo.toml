[package]
name = "midi_pads"
version = "0.1.0"
edition = "2021"
publish = false

[dependencies]
anyhow = "1"
async-channel = "2"
async-process = "2"
async-trait = "0.1"
clap = { version = "4", features = ["derive"] }
k8s-openapi = { version = "=0.20.0", features = ["v1_28"] }
kube-client = { version = "=0.87.2", default-features = false, features = ["client", "config", "rustls-tls"] }
serde = { version = "1", features = ["derive"] }
serde_yaml = "0.9"
thiserror = "1"
tokio = { version = "1", features = ["rt-multi-thread", "time", "sync", "macros"] }
