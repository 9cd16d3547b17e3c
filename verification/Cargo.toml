[package]
name = "arkouda_proxy"
version = "0.1.0"
edition = "2021"
publish = false

[dependencies]
serde = { version = "=1.0.229", features = ["derive"] }
serde_json = "=1.0.154"
tokio = { version = "=1.54.1", features = ["rt-multi-thread", "macros", "sync", "time"] }
tokio-stream = "=0.1.19"
tonic = "=0.14.6"
tonic-prost = "0.14"
prost = "0.14"
zmq = "=0.10.0"
log = "=0.4.34"
env_logger = "=0.11.11"
