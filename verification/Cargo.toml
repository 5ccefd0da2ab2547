[package]
name = "fxtwitter_bot"
version = "0.1.0"
edition = "2021"
publish = false

[dependencies]
anyhow = "=1.0.104"
regex = "=1.13.1"
serenity = { version = "=0.12.5", default-features = false, features = ["client", "gateway", "rustls_backend", "model"] }
shuttle-runtime = "=0.44.0"
shuttle-secrets = "=0.42.0"
shuttle-serenity = "=0.44.0"
tokio = "=1.54.1"
tracing = "=0.1.44"
