[package]
name = "dtconn"
version = "0.1.0"
edition = "2021"
publish = false

[dependencies]
serde_json = "=1.0.151"
jsonwebtoken = { version = "=11.1.0", features = ["rust_crypto"] }
serde = { version = "*", features = ["derive"] }
envconfig = "*"
futures = "*"
gcp-bigquery-client = "=0.28.0"
log = "*"
signal-hook = "*"
signal-hook-tokio = { version = "*", features = ["futures-v0_3"] }
stackdriver_logger = "*"
tokio = { version = "*", features = ["macros", "rt-multi-thread"] }
warp = { version = "=0.4.3", features = ["server"] }
