[package]
name = "gtasks"
version = "0.1.0"
edition = "2021"
publish = false

[dependencies]
anyhow = "1"
chrono = "0.4"
clap = { version = "4", features = ["derive"] }
dirs = "5"
google-tasks1 = "6"
hyper-rustls = { version = "0.27", default-features = false, features = ["http1", "http2", "native-tokio", "ring", "tls12", "logging"] }
hyper-util = { version = "0.1", features = ["client-legacy", "tokio", "http1", "http2"] }
rustls = { version = "0.23", default-features = false, features = ["ring", "std", "tls12", "logging"] }
serde_json = "1"
tokio = { version = "1", features = ["full"] }
yup-oauth2 = "11"
