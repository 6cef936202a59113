[package]
name = "ext_proc"
version = "0.1.0"
edition = "2021"
publish = false

[dependencies]
json = "=0.12.4"
bytes = "=1.12.1"
futures = "=0.3.34"
tokio = { version = "=1.53.2", features = ["macros", "rt-multi-thread"] }
tonic = "=0.6.2"
envoy-control-plane = { version = "=0.4.0", default-features = false, features = ["grpc"] }
