[package]
name = "blob_bridge"
version = "0.1.0"
edition = "2021"
publish = false

[dependencies]
base64 = "=0.21.7"
chrono = "=0.4.45"
constant_time_eq = "=0.3.1"
ed25519-dalek = "=1.0.1"
serde_json = "=1.0.151"
serde = { version = "=1.0.229", features = ["derive"] }
tokio = { version = "=1.53.2", features = ["rt-multi-thread", "sync", "macros", "time"] }
tonic = "=0.11.0"
prost = "=0.12.6"
clap = { version = "=4.6.7", features = ["derive", "env"] }
actix-web = "=4.15.0"
tracing-actix-web = "0.7"
once_cell = "=1.21.4"
lazy_static = "=1.5.1"
anyhow = "=1.0.104"
libc = "=0.2.190"
tracing = "=0.1.44"
tracing-subscriber = { version = "=0.3.23", features = ["env-filter"] }
