[package]
name = "oracle_parquet"
version = "0.1.0"
edition = "2021"
publish = false

[dependencies]
anyhow = "=1.0.104"
aws-config = "1"
aws-sdk-s3 = "1"
chrono = "=0.4.45"
clap = { version = "=4.6.7", features = ["derive"] }
config = "=0.15.27"
futures = "=0.3.34"
http = "=1.5.0"
lambda_runtime = "=1.5.0"
parquet = { version = "=60.0.0", default-features = false }
serde = { version = "=1.0.229", features = ["derive"] }
serde_json = "=1.0.154"
thiserror = "=2.0.21"
tokio = { version = "=1.54.1", features = ["full"] }
tracing = "=0.1.44"
tracing-subscriber = { version = "=0.3.23", features = ["env-filter"] }

[dev-dependencies]
bytes = "=1.12.1"
