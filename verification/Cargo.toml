[package]
name = "hatchet-sdk"
version = "0.1.0"
edition = "2021"
publish = false

[dependencies]
anyhow = "1"
chrono = "0.4"
futures = "0.3"
log = "0.4"
prost-types = "0.14"
reqwest = { version = "0.12", default-features = false }
rustls = { version = "0.23", default-features = false, features = ["ring", "std"] }
serde = { version = "1", features = ["derive"] }
serde_json = "1"
tokio = { version = "1", features = ["full"] }
tokio-util = "0.7"
tonic = { version = "0.14", features = ["tls-ring", "tls-native-roots"] }
tracing = "0.1"
tracing-subscriber = "0.3"
