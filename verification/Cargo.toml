[package]
name = "protofish"
version = "0.1.0"
edition = "2021"
publish = false

[dependencies]
rand = "=0.10.3"
tokio = { version = "=1.53.2", features = ["full"] }
quinn = "=0.11.12"
rustls = { version = "=0.23.45", default-features = false, features = ["ring", "std", "logging", "tls12"] }
bytes = "=1.12.1"
dashmap = "=6.2.1"
parking_lot = "=0.12.5"
async-trait = "=0.1.92"
thiserror = "=2.0.21"
tracing = "=0.1.44"
