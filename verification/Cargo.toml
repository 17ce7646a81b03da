[package]
name = "per_oxo"
version = "0.1.0"
edition = "2021"
publish = false

[dependencies]
uuid = { version = "=1.29.0", features = ["v1", "v4", "v6"] }
serde_json = { version = "=1.0.154", features = ["preserve_order"] }
chrono = "=0.4.45"
rand = "=0.8.8"
nanoid = "=0.4.0"
tokio = { version = "=1.54.1", features = ["full"] }
axum = { version = "=0.8.9", features = ["ws"] }
futures = "=0.3.34"
tracing = "=0.1.44"
tracing-subscriber = { version = "=0.3.23", features = ["env-filter"] }
prometheus = "=0.13.4"
dotenv = "=0.15.0"
tonic = "=0.13.1"
prost = "=0.13.5"
