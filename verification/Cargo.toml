[package]
name = "quantun"
version = "0.1.0"
edition = "2021"
publish = false

[dependencies]
ml-kem = { version = "=0.3.2", features = ["getrandom"] }
ml-dsa = "=0.1.1"
slh-dsa = "=0.1.0"
signature = "=2.3.0-pre.4"
hybrid-array = { version = "=0.2.0-rc.8", features = ["extra-sizes"] }
x25519-dalek = { version = "=3.0.0", features = ["static_secrets"] }
sha2 = "=0.11.0"
getrandom = "=0.4.3"
rand = "=0.10.3"
zeroize = "=1.9.1"
serde = { version = "=1.0.229", features = ["derive"] }
serde_json = "=1.0.151"
axum = "=0.8.9"
http = "=1.5.0"
hyper-util = { version = "=0.1.21", features = ["client-legacy", "http1", "tokio"] }
tokio = { version = "=1.53.2", features = ["rt", "time", "macros"] }
