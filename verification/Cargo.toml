[package]
name = "avalanche_ops"
version = "0.1.0"
edition = "2021"
publish = false

[dependencies]
aws-config = { version = "=1.13.0", default-features = false, features = ["behavior-version-latest"] }
aws-types = "=1.7.0"
log = "=0.4.34"
serde = { version = "=1.0.229", features = ["derive"] }
