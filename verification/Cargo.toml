[package]
name = "blog"
version = "0.1.0"
edition = "2021"
publish = false

[dependencies]
actix-files = "=0.7.0"
actix-web = { version = "=4.15.0", features = ["openssl"] }
chrono = "=0.4.45"
env_logger = "=0.11.11"
geoip2 = "=0.1.8"
openssl = "=0.10.81"
rusqlite = "=0.40.2"
serde = { version = "=1.0.229", features = ["derive"] }
serde_json = "=1.0.151"
tera = "=2.4.0"
