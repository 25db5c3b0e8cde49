[package]
name = "redirection_service"
version = "0.1.0"
edition = "2021"
publish = false

[dependencies]
serde_json = "=1.0.151"
axum = "=0.8.9"
tokio = { version = "=1.53.2", features = ["full"] }
anyhow = "=1.0.104"
async-trait = "=0.1.92"
scylla = "=1.9.0"
async-nats = "=0.50.0"
bytes = "=1.12.1"
futures = "=0.3.34"
tonic = "=0.14.6"
tonic-prost = "*"
tower = "=0.5.3"
prost = "=0.14.4"
prost-types = "=0.14.4"

[dev-dependencies]
