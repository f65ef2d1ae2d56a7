[package]
name = "image_gateway"
version = "0.1.0"
edition = "2021"
publish = false

[dependencies]
image = "*"
axum = { version = "*", features = ["multipart"] }
aws-config = "*"
aws-credential-types = { version = "*", features = ["hardcoded-credentials"] }
aws-sdk-s3 = "*"
tower-http = { version = "*", features = ["timeout"] }
tokio = { version = "*", features = ["macros", "rt-multi-thread"] }
