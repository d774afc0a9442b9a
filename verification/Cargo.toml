[package]
name = "remote_attestation"
version = "0.1.0"
edition = "2021"
publish = false

[dependencies]
base64 = "=0.13.1"
webpki = { version = "=0.22.4", features = ["std"] }
rustls = "=0.21.12"
http_req = { version = "=0.14.6", default-features = false, features = ["rust-tls"] }
