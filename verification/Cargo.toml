[package]
name = "hydra_schematic"
version = "0.1.0"
edition = "2021"
publish = false

[dependencies]
failure = "0.1"
k8s-openapi = { version = "0.4.0", features = ["v1_13"] }
serde = { version = "1", features = ["derive"] }
serde_json = "1"
