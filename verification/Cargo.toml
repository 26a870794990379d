[package]
name = "job_engine"
version = "0.1.0"
edition = "2021"
publish = false

[dependencies]
anyhow = "1"
backoff = { version = "0.4", features = ["tokio"] }
base64 = "0.21"
clap = { version = "4", features = ["derive"] }
derive_more = "0.99"
futures = "0.3"
governor = "0.6"
log = "0.4"
nonzero_ext = "0.3"
strum = "0.25"
strum_macros = "0.25"
tokio = { version = "1", features = ["rt-multi-thread", "sync", "time", "macros"] }
tracing-subscriber = { version = "0.3", features = ["env-filter"] }
vaultrs = "0.7"
