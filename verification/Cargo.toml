[package]
name = "fia_ingest"
version = "0.1.0"
edition = "2021"
publish = false

[dependencies]
aws-sign-v4 = "=0.3.0"
chrono = "=0.4.45"
html5ever = "=0.40.1"
http = "=1.5.0"
reqwest = "=0.13.5"
sha256 = "=1.6.0"
sqlx = { version = "=0.8.6", default-features = false, features = ["mysql", "runtime-tokio", "tls-rustls"] }
tokio = { version = "=1.53.2", features = ["rt-multi-thread", "macros", "time", "signal"] }
url = "=2.5.8"
urlencoding = "=2.1.3"
