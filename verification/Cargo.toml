[package]
name = "svc-itest"
version = "0.1.0"
edition = "2021"
publish = false

[dependencies]
axum = "0.6"
chrono = "0.4"
hyper = "0.14"
serde = { version = "1", features = ["derive"] }
serde_json = "1"
svc-storage-client-grpc = "0.2.0"
tokio = { version = "1", features = ["macros", "rt-multi-thread", "sync"] }
utoipa = "3"
uuid = { version = "1", features = ["v4"] }
