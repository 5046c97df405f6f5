[package]
name = "grpc_client_span"
version = "0.1.0"
edition = "2021"
publish = false

[dependencies]
http = "*"
tracing = "*"
opentelemetry = "*"
