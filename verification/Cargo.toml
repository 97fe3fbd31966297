[package]
name = "noplacelike"
version = "0.1.0"
edition = "2021"
publish = false

[dependencies]
actix = "=0.13.5"
actix-files = "=0.6.10"
actix-multipart = "=0.6.2"
actix-web = { version = "=4.18.1", default-features = false, features = ["macros", "ws"] }
actix-web-actors = "=4.3.1"
arboard = { version = "=3.7.0", default-features = false }
askama = "=0.12.1"
dirs = "=5.0.1"
futures = "=0.3.34"
lazy_static = "=1.5.1"
local-ip-address = "=0.6.13"
qr2term = "=0.3.3"
sanitize-filename = "=0.5.0"
serde = { version = "=1.0.229", features = ["derive"] }
serde_json = "=1.0.154"
