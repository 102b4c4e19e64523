[package]
name = "probes_policy"
version = "0.1.0"
edition = "2021"
publish = false

[dependencies]
anyhow = "1"
k8s-openapi = { version = "*", default-features = false, features = ["latest"] }
kubewarden-policy-sdk = "*"
lazy_static = "1"
serde = { version = "1", features = ["derive"] }
serde_json = "1"
slog = "2"
