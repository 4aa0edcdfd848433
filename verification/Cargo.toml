[package]
name = "rccheck"
version = "0.1.0"
edition = "2021"
publish = false

[dependencies]
webpki = { version = "=0.22.4", features = ["alloc", "std"] }
x509-parser = { version = "=0.14.0", features = ["verify"] }
rustls = { version = "=0.20.9", features = ["dangerous_configuration"] }
serde = "1"
tracing = "0.1"

[dev-dependencies]
rcgen = "=0.11.3"
