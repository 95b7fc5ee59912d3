[package]
name = "woodns"
version = "0.1.0"
edition = "2021"
publish = false

[dependencies]
anyhow = "=1.0.104"
bollard = "=0.19.4"
chrono = "=0.4.45"
futures-util = "=0.3.34"
tokio = { version = "=1.54.1", features = ["full"] }
trust-dns-proto = { version = "=0.23.2", default-features = false, features = ["dnssec"] }
