[package]
name = "rt_timestamp"
version = "0.2.0"
edition = "2021"
publish = false

[dependencies]
chrono = "=0.4.45"
hex = "=0.4.3"
roughenough = ">=1.2.0-0"
serde = { version = "=1.0.229", features = ["derive"] }
thiserror = "=2.0.21"
