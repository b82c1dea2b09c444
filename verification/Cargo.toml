[package]
name = "cactuar"
version = "0.1.0"
edition = "2021"
publish = false

[dependencies]
chrono = "=0.4.45"
kube = { version = "=3.1.0", features = ["runtime", "derive"] }
k8s-openapi = { version = "=0.27.1", features = ["latest"] }
serde = { version = "=1.0.229", features = ["derive"] }
serde_json = "=1.0.151"
schemars = "=1.2.2"
thiserror = "=2.0.21"
tokio = { version = "=1.53.2", features = ["macros", "rt-multi-thread", "signal", "net"] }
futures = "=0.3.34"
axum = "=0.8.9"
tracing = "=0.1.44"
tracing-subscriber = { version = "=0.3.23", features = ["env-filter"] }
tracing-error = "=0.2.1"
tracing-log = "=0.2.0"
color-eyre = "=0.6.5"
uuid = { version = "=1.27.0", features = ["v4"] }

[dev-dependencies]
serde_yaml = "=0.9.34"
