[package]
name = "delta_operator"
version = "0.1.0"
edition = "2021"
publish = false

[dependencies]
chrono = "=0.4.38"
clap = { version = "4", features = ["derive", "env"] }
deltalake = "=0.17.3"
futures = "0.3"
k8s-openapi = { version = "=0.20.0", features = ["v1_28"] }
kube = { version = "=0.87.2", features = ["runtime", "derive", "client"] }
schemars = "0.8"
serde = { version = "1", features = ["derive"] }
serde_json = "1"
thiserror = "1"
tokio = { version = "1", features = ["macros", "rt-multi-thread", "sync"] }
tracing = "0.1"
