[package]
name = "kubeware"
version = "0.1.0"
edition = "2021"
publish = false

[dependencies]
tonic = "0.11"
prost = "0.12"
hyper = { version = "0.14", features = ["full"] }
tokio = { version = "1", features = ["full"] }
futures = "0.3"
bytes = "1"
toml = "0.8"
serde = { version = "1", features = ["derive"] }
serde_derive = "1"
log = "0.4"
pretty_env_logger = "0.5"
