[package]
name = "mediator"
version = "0.1.0"
edition = "2021"
publish = false

[dependencies]
axum = "0.6"
base64-url = "*"
bs58 = "*"
dotenvy = "*"
env_logger = "*"
fast_qr = { version = "*", features = ["svg"] }
log = "0.4"
multibase = "*"
serde = { version = "1", features = ["derive"] }
serde_json = "1"
tokio = { version = "1", features = ["macros", "rt-multi-thread"] }
tower-http = { version = "0.4", features = ["catch-panic"] }
unsigned-varint = "*"
uuid = { version = "1", features = ["v4"] }
