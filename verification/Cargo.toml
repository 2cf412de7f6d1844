[package]
name = "tsubasa"
version = "0.1.0"
edition = "2021"
publish = false

[dependencies]
elasticsearch = { version = "8.5.0-alpha.1", default-features = false, features = ["rustls-tls"] }
url = "2"
rocket = { version = "0.5", features = ["json"] }
rocket_prometheus = "0.10"
serde = { version = "1", features = ["derive"] }
serde_json = "1"
toml = "0.8"
log = "0.4"
fern = "0.7"
chrono = "0.4"
ansi_term = "0.12"
backtrace = "0.3"
once_cell = "1"
