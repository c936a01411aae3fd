[package]
name = "comet"
version = "0.1.0"
edition = "2021"
publish = false

[dependencies]
argon2 = "=0.5.3"
axum = { version = "=0.8.9", features = ["multipart", "ws"] }
config = { version = "=0.14.1", default-features = false, features = ["toml"] }
futures = "=0.3.34"
futures-util = "=0.3.34"
hex = "=0.4.3"
image = { version = "=0.25.10", default-features = false, features = ["jpeg", "png", "webp", "gif"] }
jsonwebtoken = "=9.3.1"
kamadak-exif = "=0.6.1"
lofty = "=0.22.4"
nanoid = "=0.4.0"
rand = "=0.8.8"
regex = "=1.13.1"
serde = { version = "=1.0.229", features = ["derive"] }
serde_json = { version = "=1.0.154", features = ["preserve_order"] }
sha2 = "=0.10.9"
sqlx = { version = "=0.8.6", default-features = false, features = ["runtime-tokio", "sqlite"] }
tokio = { version = "=1.54.1", features = ["full"] }
tokio-util = { version = "=0.7.20", features = ["io"] }
tower = { version = "=0.5.3", features = ["util"] }
tower-http = { version = "=0.6.11", features = ["fs", "cors"] }
tracing = "=0.1.44"
tracing-subscriber = "=0.3.23"
