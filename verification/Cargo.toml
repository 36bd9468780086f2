[package]
name = "dcp"
version = "0.1.0"
edition = "2021"
publish = false

[dependencies]
aws-sdk-iam = { version = "1", default-features = false, features = ["rt-tokio", "behavior-version-latest"] }
aws-sdk-s3 = { version = "1", default-features = false, features = ["rt-tokio", "behavior-version-latest"] }
aws-sdk-s3control = { version = "1", default-features = false, features = ["rt-tokio", "behavior-version-latest"] }
bytes = "1"
chrono = "0.4"
clap = { version = "4", features = ["derive"] }
futures = "0.3"
serde = { version = "1", features = ["derive"] }
serde_json = "1"
tempfile = "3"
tokio = { version = "1", features = ["fs", "io-util", "rt", "macros"] }
tracing = "0.1"
