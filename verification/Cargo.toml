[package]
name = "oak_utils"
version = "0.1.0"
edition = "2021"
publish = false

[dependencies]
sha2 = "=0.10.9"
rand = "=0.8.8"
p256 = { version = "=0.13.2", features = ["ecdsa", "pkcs8", "pem"] }
x509-cert = { version = "=0.2.5", features = ["pem"] }
opentelemetry = { version = "=0.22.0", features = ["metrics"] }
uart_16550 = "=0.3.2"
x86_64 = "=0.14.13"
spinning_top = "0.3"
tokio = { version = "=1.54.1", features = ["sync", "rt", "macros"] }
lazy_static = "=1.5.1"
anyhow = "=1.0.104"
