[package]
name = "qddxp"
version = "0.1.0"
edition = "2021"
publish = false

[dependencies]
aes-gcm = "=0.10.3"
base64 = "=0.22.1"
chrono = { version = "=0.4.45", features = ["serde"] }
hex = "=0.4.3"
hmac = "=0.12.1"
ipnet = "=2.12.2"
md5 = "=0.7.0"
moka = { version = "=0.12.16", features = ["sync"] }
roxmltree = "=0.20.0"
rsa = "=0.9.10"
sha2 = { version = "=0.10.9", features = ["oid"] }
urlencoding = "=2.1.3"
uuid = { version = "=1.29.0", features = ["v4", "serde"] }
captcha = "=1.0.0"
serde = { version = "=1.0.229", features = ["derive"] }
serde_json = "=1.0.154"
axum = "=0.8.9"
axum-governor = "=2.1.2"
tokio = { version = "=1.54.1", features = ["full"] }
tower-http = { version = "=0.7.1", features = ["fs", "cors", "trace", "set-header"] }
tower-sessions = "=0.14.0"
tower-sessions-moka-store = "=0.15.0"
reqwest = { version = "=0.12.28", default-features = false, features = ["json", "rustls-tls"] }
teloxide-core = { version = "=0.13.0", default-features = false, features = ["rustls"] }
diesel = { version = "=2.3.14", default-features = false, features = ["postgres_backend", "chrono", "uuid", "serde_json"] }
diesel-async = { version = "=0.9.2", features = ["postgres", "bb8"] }
tracing = "=0.1.44"
tracing-subscriber = { version = "=0.3.23", features = ["env-filter"] }
dotenvy = "=0.15.7"
takecell = "=0.1.1"
