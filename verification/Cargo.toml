[package]
name = "clash_lib"
version = "0.1.0"
edition = "2021"
publish = false

[dependencies]
anyhow = "1"
async-recursion = "1"
async-trait = "0.1"
futures = "0.3"
hickory-client = { version = "0.24", features = ["dns-over-rustls", "dns-over-https-rustls"] }
hickory-proto = { version = "0.24", features = ["dns-over-rustls", "dns-over-https-rustls"] }
http = "0.2"
hyper = { version = "0.14", features = ["client", "http1", "tcp", "stream"] }
maxminddb = "0.23"
rand = "0.8"
rustls = { version = "0.21", features = ["dangerous_configuration"] }
tokio = { version = "1", features = ["full"] }
tracing = "0.1"
