[package]
name = "zode"
version = "0.1.0"
edition = "2021"
publish = false

[dependencies]
aimux-core = "*"
aimux-providers = "*"
async-stream = "0.3"
axum = "0.8"
fs2 = "0.4"
futures-util = "0.3"
getrandom = "0.3"
hmac = "0.12"
jsonschema = { version = "*", default-features = false }
libc = "0.2"
serde = { version = "1", features = ["derive"] }
serde_json = "1"
sha2 = "0.10"
subtle = "2"
thiserror = "2"
tokio = { version = "1", features = ["full"] }
ulid = "1"
url = "2"
