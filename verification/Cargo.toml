[package]
name = "rust_ddns"
version = "0.1.0"
edition = "2021"
publish = false

[dependencies]
clap = "2"
hyper = { version = "0.14", features = ["full"] }
hyper-tls = "0.5"
log = "0.4"
public-ip = "0.2"
serde = { version = "1", features = ["derive"] }
serde_json = "1"
serde-xml-rs = "0.5"
simple_logger = "2"
time = "0.3"
tokio = { version = "1", features = ["full"] }
