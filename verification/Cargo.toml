[package]
name = "pegasus_server"
version = "0.1.0"
edition = "2021"
publish = false

[dependencies]
futures = "=0.3.34"
hyper = { version = "=0.14.32", features = ["server", "tcp", "http2", "stream"] }
log = "=0.4.34"
prost = "=0.9.0"
serde = { version = "=1.0.229", features = ["derive"] }
tokio = { version = "=1.54.1", features = ["sync", "macros", "rt-multi-thread", "net"] }
tokio-stream = "=0.1.19"
tonic = "=0.6.2"
