[package]
name = "flechasdb-s3"
version = "0.1.0"
edition = "2021"
publish = false

[dependencies]
async-trait = "0.1"
aws-config = "=1.8.18"
aws-sdk-s3 = "1"
aws-smithy-runtime-api = { version = "1", features = ["client"] }
base64 = "=0.21.7"
bytes = "=1.12.1"
pin-project-lite = "0.2"
ring = "=0.17.14"
tempfile = "3"
tokio = { version = "1", features = ["rt", "rt-multi-thread"] }
tokio-util = { version = "0.7", features = ["io"] }
