[package]
name = "back2back"
version = "0.1.0"
edition = "2021"
publish = false

[dependencies]
rand = "=0.8.8"
kube = { version = "=3.1.0", features = ["runtime", "derive"] }
k8s-openapi = { version = "=0.27.1", features = ["latest"] }
serde = { version = "*", features = ["derive"] }
serde_json = "*"
schemars = "*"
thiserror = "*"
futures = "*"
tokio = { version = "*", features = ["macros", "rt-multi-thread", "signal", "net"] }
axum = "*"
tower-http = { version = "*", features = ["trace", "timeout"] }
tracing = "*"
tracing-subscriber = "*"
