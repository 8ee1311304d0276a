[package]
name = "openbridge"
version = "0.1.0"
edition = "2021"
publish = false

[dependencies]
urlencoding = "=2.1.3"
sha2 = "=0.10.9"
base64 = "=0.22.1"
base64ct = { version = "=1.8.3", features = ["alloc"] }
bson = "=2.15.0"
rand = "=0.10.3"
time = "=0.3.55"
serde = { version = "=1.0.229", features = ["derive"] }
serde_json = "=1.0.154"
tokio = { version = "=1.54.1", features = ["net", "io-util", "rt-multi-thread", "macros"] }
actix-web = "=4.18.1"
jsonwebtoken = "=9.3.1"
chrono = "=0.4.45"
chrono-humanize = "=0.2.3"
openssl = "=0.10.82"
p256 = { version = "=0.13.2", features = ["jwk", "pem"] }
toml = "=1.1.8"
futures = "=0.3.34"
tera = "=1.20.1"
actix-ws = "=0.4.0"
tokio-tungstenite = "=0.30.0"
hyper = { version = "=1.12.0", features = ["client", "http1", "http2"] }
hyper-util = { version = "=0.1.21", features = ["client-legacy", "http1", "http2", "tokio"] }
http-body-util = "=0.1.5"
tracing = "=0.1.44"
actix-server = "=2.10.0"
actix-service = "=2.0.3"
actix-http = "=3.20.0"
actix-cors = "0.7"
hyper-rustls = { version = "0.27", default-features = false, features = ["http1", "http2", "native-tokio", "ring", "tls12"] }
