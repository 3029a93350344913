[package]
name = "sol_to_uml"
version = "0.1.0"
edition = "2021"
publish = false

[dependencies]
actix-web = "4"
actix-web-prom = "0.6"
anyhow = "1"
config = "0.13"
env_logger = "0.9"
futures = "0.3"
lazy_static = "1"
log = "0.4"
prometheus = "0.13"
serde = { version = "1", features = ["derive"] }
tempfile = "3"
thiserror = "1"
tokio = { version = "1", features = ["fs", "process", "rt-multi-thread", "macros"] }
tracing = "0.1"
tracing-actix-web = "0.6"
