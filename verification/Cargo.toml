[package]
name = "pimad_edge"
version = "0.1.0"
edition = "2021"
publish = false

[dependencies]
chrono = "=0.4.45"
fastrand = "=2.5.0"
tokio = { version = "=1.54.1", features = ["rt-multi-thread", "macros", "sync", "time", "signal"] }
tokio-util = "=0.7.20"
serde = { version = "=1.0.229", features = ["derive"] }
rmp-serde = "=1.3.1"
tracing = "=0.1.44"
tracing-subscriber = { version = "=0.3.23", features = ["env-filter"] }
toml = "=0.8.23"
sysinfo = "=0.40.1"
rumqttc = "=0.25.1"
futures = "=0.3.34"
reqwest = { version = "=0.12.28", default-features = false, features = ["rustls-tls"] }
self_update = { version = "=1.3.3", default-features = false, features = ["reqwest", "rustls", "github"] }
sqlx = { version = "=0.8.6", default-features = false, features = ["runtime-tokio", "sqlite", "derive"] }
