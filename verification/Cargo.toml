[package]
name = "nebulous"
version = "0.1.0"
edition = "2021"
publish = false

[dependencies]
anyhow = "=1.0.104"
async-trait = "=0.1.92"
base64 = "=0.22.1"
chrono = "=0.4.45"
clap = { version = "=4.6.7", features = ["derive"] }
dirs = "=7.0.0"
dotenv = "=0.15.0"
futures = "=0.3.34"
k8s-openapi = { version = "=0.29.0", features = ["latest"] }
kube = { version = "=5.0.0", features = ["ws"] }
once_cell = "=1.21.4"
open = "=5.4.5"
petname = "=2.0.2"
reqwest = { version = "=0.12.28", default-features = false, features = ["json", "rustls-tls"] }
rpassword = "=7.5.4"
serde = { version = "=1.0.229", features = ["derive"] }
serde_json = "=1.0.154"
serde_yaml = "=0.9.34"
short-uuid = "=0.2.1"
tailscale-client = "=0.1.5"
thiserror = "=2.0.21"
tokio = { version = "=1.54.1", features = ["full"] }
tokio-util = "=0.7.20"
tracing = "=0.1.44"
tracing-subscriber = "=0.3.23"
uuid = { version = "=1.29.0", features = ["v4"] }
