[package]
name = "rustyhip"
version = "0.1.0"
edition = "2021"
publish = false

[dependencies]
anyhow = "=1.0.104"
lambda_http = "=1.3.2"
rusqlite = { version = "=0.35.0", features = ["bundled", "hooks"] }
serde = { version = "=1.0.229", features = ["derive"] }
serde_json = "=1.0.154"
time = { version = "=0.3.55", features = ["formatting"] }
tokio = { version = "=1.54.1", features = ["macros", "rt-multi-thread"] }
tracing = "=0.1.44"
tracing-subscriber = { version = "=0.3.23", features = ["env-filter"] }
turbolite = { version = "=0.5.0", features = ["cli-s3"] }

[dev-dependencies]
tempfile = "=3.27.0"
