[package]
name = "dino_park_cis"
version = "0.0.1"
edition = "2021"
publish = false

[dependencies]
actix-web = { version = "4", default-features = false }
chrono = "=0.4.45"
diesel = { version = "=1.4.8", features = ["postgres", "uuidv07", "serde_json", "r2d2"] }
diesel-derive-enum = { version = "=0.4.4", features = ["postgres"] }
failure = "=0.1.8"
failure_derive = "=0.1.8"
futures = "=0.3.34"
headers = "=0.3.9"
lazy_static = "=1.5.1"
r2d2 = "=0.8.10"
reqwest = { version = "=0.10.10", default-features = false, features = ["json", "rustls-tls"] }
serde = { version = "=1.0.229", features = ["derive"] }
serde_json = "=1.0.154"
shared-expiry-get = "=0.1.0"
uuid = { version = "=0.8.2", features = ["serde"] }
