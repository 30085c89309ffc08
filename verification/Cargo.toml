[package]
name = "payment_routing"
version = "0.1.0"
edition = "2021"
publish = false

[dependencies]
actix-http = "3"
actix-web = "4"
base64 = "0.22"
bytes = "1"
error-stack = "0.4"
futures = "0.3"
hex = "0.4"
http = "0.2"
ring = "0.17"
serde = { version = "1", features = ["derive"] }
serde_json = "1"
serde_qs = "0.12"
strum = { version = "0.26", features = ["derive"] }
time = "0.3"
toml = "0.8"
url = "2"
utoipa = "4"
