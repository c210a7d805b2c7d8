[package]
name = "jetgraph"
version = "0.1.0"
edition = "2021"
publish = false

[dependencies]
zstd = "=0.14.0"
chrono = "=0.4.45"
neo4rs = "=0.8.0"
serde = { version = "*", features = ["derive"] }
serde_json = "*"
tokio = { version = "*", features = ["full"] }
reqwest = { version = "*", default-features = false, features = ["json", "rustls-tls"] }
fastwebsockets = { version = "=0.10.0", features = ["upgrade"] }
hyper = "=1.12.0"
hyper-util = "=0.1.21"
http-body-util = "=0.1.5"
tokio-rustls = "=0.26.6"
rustls = { version = "=0.23.45", default-features = false, features = ["ring", "logging", "std", "tls12"] }
webpki-roots = "=1.0.9"
