[package]
name = "svc_contact"
version = "0.1.0"
edition = "2021"
publish = false

[dependencies]
chrono = "0.4"
rand = "0.8"
tokio = { version = "1", features = ["macros", "rt-multi-thread", "signal", "sync", "time"] }
tonic = "0.10"
tonic-health = "0.10"
axum = "0.6"
hyper = "0.14"
serde = { version = "1", features = ["derive"] }
utoipa = "4"

[dev-dependencies]
polyline = "*"
geo-types = "*"
