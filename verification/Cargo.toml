[package]
name = "folder_size_exporter"
version = "0.1.0"
edition = "2021"
publish = false

[dependencies]
clap = "=2.34.0"
env_logger = "=0.10.2"
http = "=0.2.12"
hyper = { version = "=0.14.32", features = ["full"] }
log = "=0.4.34"
prometheus_exporter_base = { version = "=1.4.0", features = ["hyper_server"] }
serde = "=1.0.229"
serde_derive = "=1.0.229"
serde_json = "=1.0.151"
thiserror = "=1.0.69"
tokio = { version = "=1.53.2", features = ["full"] }
