[package]
name = "matchmaker"
version = "0.1.0"
edition = "2021"
publish = false

[dependencies]
actix = "=0.13.5"
actix-codec = "=0.5.4"
actix-rt = "=2.15.0"
actix-web = "=4.18.1"
actix-web-actors = "=4.3.1"
anyhow = "=1.0.104"
argon2 = { version = "=0.4.1", features = ["std"] }
awc = "=3.11.0"
base64 = "=0.13.1"
bincode = "=1.3.3"
bytes = "=1.12.1"
diesel = { version = "=2.3.14", features = ["postgres", "r2d2", "uuid"] }
dotenv = "=0.15.0"
futures-util = "=0.3.34"
ggrs = "0.10"
r2d2 = "=0.8.10"
rand = "=0.8.8"
secrecy = "=0.8.0"
serde = { version = "=1.0.229", features = ["derive"] }
serde_json = "=1.0.154"
thiserror = "=1.0.69"
tokio = { version = "=1.54.1", features = ["sync", "time", "macros", "rt"] }
tracing = "=0.1.44"
tracing-subscriber = { version = "=0.3.23", features = ["env-filter"] }
uuid = { version = "=1.29.0", features = ["v4", "serde"] }
webrtc = "0.11"
