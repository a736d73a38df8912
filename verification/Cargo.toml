[package]
name = "tonic_lnd"
version = "0.1.0"
edition = "2021"
publish = false

[dependencies]
hex = "0.4"
http-body = "0.4"
hyper = { version = "0.14", features = ["client", "http1", "http2", "tcp", "runtime"] }
hyper-rustls = { version = "0.24", default-features = false, features = ["http1", "http2", "tls12", "tokio-runtime"] }
rustls = { version = "0.21", features = ["dangerous_configuration"] }
rustls-pemfile = "1"
tokio = { version = "1", features = ["fs"] }
tonic = { version = "0.9", default-features = false, features = ["codegen"] }
