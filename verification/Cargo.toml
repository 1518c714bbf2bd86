[package]
name = "southesk"
version = "0.1.0"
edition = "2021"
publish = false

[dependencies]
serde = { version = "=1.0.229", features = ["derive"] }
serde_json = "=1.0.154"
serde_urlencoded = "=0.7.1"
serde_with = "=3.24.0"
reqwest = { version = "=0.13.5", default-features = false }
uuid = { version = "=1.29.1", features = ["serde"] }
rust_decimal = "=1.43.0"
rmcp = { version = "=3.8.0", features = ["client", "auth", "transport-streamable-http-client-reqwest", "reqwest"] }
tokio = { version = "=1.54.1", features = ["full"] }
axum = "=0.8.9"
webbrowser = "=1.2.6"
thiserror = "=2.0.21"
tracing = "=0.1.44"
etcetera = "=0.11.0"
keyring-core = "=1.0.1"
async-trait = "=0.1.92"
dbus-secret-service-keyring-store = "*"
