[package]
name = "lightleap"
version = "0.1.0"
edition = "2021"
publish = false

[dependencies]
ammonia = "=3.3.4"
pulldown-cmark = { version = "=0.9.6", default-features = false }
rand = "=0.8.8"
ring = "=0.17.14"
hex = "=0.4.3"
uuid = { version = "=1.29.0", features = ["v4", "serde"] }
indexmap = { version = "=2.14.2", features = ["serde"] }
serde = { version = "=1.0.229", features = ["derive"] }
serde_json = "=1.0.154"
actix-web = "=4.18.1"
actix-ws = "0.2"
futures = "0.3"
reqwest = { version = "=0.11.27", default-features = false, features = ["json", "rustls-tls"] }
tokio = { version = "=1.54.1", features = ["full"] }
chrono = { version = "=0.4.45", features = ["serde"] }
log = "=0.4.35"
env_logger = "=0.9.3"
base64 = "=0.13.1"
bigdecimal = { version = "=0.3.1", features = ["serde"] }
sqlx = { version = "=0.6.3", default-features = false, features = ["postgres", "runtime-tokio-rustls", "chrono", "uuid", "bigdecimal", "json", "macros"] }
deadpool-redis = "0.10"
