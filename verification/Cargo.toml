[package]
name = "gobsg"
version = "0.1.0"
edition = "2021"
publish = false

[dependencies]
actix-cors = "=0.7.2"
actix-session = { version = "=0.11.0", features = ["redis-session"] }
actix-web = "=4.18.1"
better-logger = { version = "=2.1.7", features = ["native"] }
chrono = "=0.4.45"
hex = "=0.4.3"
num_cpus = "=1.17.0"
openidconnect = "=4.0.1"
redis = "=1.8.0"
serde = { version = "=1.0.229", features = ["derive"] }
serde_json = "=1.0.154"
tokio = { version = "=1.54.1", features = ["macros", "rt", "sync", "time"] }
toml = "=1.1.8"
url = "=2.5.8"
