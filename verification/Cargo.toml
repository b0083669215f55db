[package]
name = "opentelemetry_aws"
version = "0.1.0"
edition = "2021"
publish = false

[dependencies]
reqwest = { version = "*", default-features = false, features = ["blocking"] }
serde = "*"
serde_json = "*"
opentelemetry = "*"
opentelemetry_sdk = "*"
opentelemetry-semantic-conventions = "*"

[dev-dependencies]
mockito = "*"
