[package]
name = "leaf"
version = "0.1.0"
edition = "2021"
publish = false

[dependencies]
anyhow = "=1.0.104"
clap = { version = "=4.6.7", features = ["derive"] }
futures = "=0.3.34"
hyper = { version = "=0.14.32", features = ["full"] }
hyper-rustls = { version = "0.24", features = ["http1", "native-tokio"] }
hyper-timeout = "0.4"
lazy_static = "=1.5.1"
log = "=0.4.35"
matchit = "=0.7.3"
mini-moka = "=0.10.3"
rust-embed = "=6.8.1"
serde = { version = "=1.0.229", features = ["derive"] }
thiserror = "=1.0.69"
time = { version = "=0.3.55", features = ["formatting", "parsing", "macros"] }
tokio = { version = "=1.54.1", features = ["full"] }
toml = "=0.7.8"
tracing = "=0.1.44"
tracing-subscriber = { version = "=0.3.23", features = ["time", "env-filter"] }
