[package]
name = "fuin"
version = "0.1.0"
edition = "2021"
publish = false

[dependencies]
age = { version = "=0.11.5", features = ["armor"] }
clap = { version = "4", features = ["derive"] }
futures = "0.3"
k8s-openapi = { version = "0.27", features = ["latest"] }
kube = { version = "3.1", default-features = false, features = ["client", "derive", "runtime", "rustls-tls", "ring"] }
schemars = "1"
serde = { version = "1", features = ["derive"] }
serde_json = "1"
serde_yaml_ng = "0.10"
thiserror = "2"
tokio = { version = "1", features = ["macros", "rt-multi-thread", "time", "signal"] }
tracing = "0.1"
