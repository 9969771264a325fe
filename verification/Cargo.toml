[package]
name = "headwind"
version = "0.2.0"
edition = "2021"
publish = false

[dependencies]
semver = "1"
chrono = "0.4"
sha2 = "0.10"
hex = "0.4"
base64 = "0.22"
serde = { version = "1", features = ["derive"] }
serde_json = "1"
serde_yaml = "0.9"
tokio = { version = "1", features = ["full"] }
axum = "0.8"
tower-http = { version = "0.6", features = ["trace"] }
tracing = "0.1"
tracing-subscriber = { version = "0.3", features = ["env-filter", "json"] }
anyhow = "1"
thiserror = "2"
reqwest = { version = "0.12", default-features = false, features = ["json", "rustls-tls"] }
prometheus = "*"
lazy_static = "1"
once_cell = "1"
futures = "0.3"
async-trait = "0.1"
maud = "*"
kube = { version = "*", features = ["runtime", "derive"] }
k8s-openapi = { version = "*", features = ["latest"] }
schemars = "*"
oci-distribution = { version = "*", default-features = false, features = ["rustls-tls"] }
