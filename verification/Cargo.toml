[package]
name = "kube-stats-exporter"
version = "0.1.0"
edition = "2021"
publish = false

[dependencies]
anyhow = "=1.0.104"
env_logger = "=0.11.11"
hyper = { version = "=1.12.0", features = ["server", "http1"] }
hyper-util = { version = "=0.1.21", features = ["tokio"] }
k8s-openapi = { version = "=0.27.1", features = ["latest"] }
kube = "=3.1.0"
log = "=0.4.34"
prometheus-client = "=0.25.1"
reqwest = "=0.13.5"
serde_json = "=1.0.154"
tokio = { version = "=1.54.1", features = ["macros", "rt-multi-thread", "net"] }
url = "=2.5.8"
