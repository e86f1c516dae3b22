[package]
name = "fems_exporter"
version = "0.1.0"
edition = "2021"
publish = false

[dependencies]
axum = "0.6"
clap = { version = "4", features = ["derive"] }
serde = { version = "1", features = ["derive"] }
tokio = { version = "1", features = ["full"] }
tokio-modbus = { version = "0.9", default-features = false, features = ["tcp"] }
tracing-subscriber = "0.3"
