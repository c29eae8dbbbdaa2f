[package]
name = "pg_sweep"
version = "0.1.0"
edition = "2021"
publish = false

[dependencies]
pgrx = "=0.18.1"
serde = { version = "=1.0.229", features = ["derive"] }

[dev-dependencies]
serde_json = "=1.0.151"
