[package]
name = "redis_microsvc"
version = "0.1.0"
edition = "2021"
publish = false

[dependencies]
chrono = "=0.4.45"
guid-create = "=0.5.2"
mime_guess = "=2.0.5"
actix = "=0.13.5"
actix-web = { version = "=4.18.1", features = ["rustls-0_23"] }
actix-redis = "=0.13.1"
actix-web-prom = "=0.10.0"
rustls = { version = "=0.23.46", default-features = false, features = ["ring", "std", "tls12", "logging"] }
rustls-pemfile = "=2.2.0"
rust-embed = { version = "=8.13.0", features = ["interpolate-folder-path"] }
serde = { version = "=1.0.229", features = ["derive"] }
