[package]
name = "auth"
version = "0.1.0"
edition = "2021"
publish = false

[dependencies]
opentelemetry = "0.18"
opentelemetry-jaeger = "0.17"
prost = "0.11"
prost-types = "0.11"
r2d2_redis = "0.14"
tokio = { version = "1", features = ["macros", "rt-multi-thread"] }
tonic = "0.8"
uuid = { version = "1", features = ["v4"] }
