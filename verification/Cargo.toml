[package]
name = "dav"
version = "0.1.0"
edition = "2021"
publish = false

[dependencies]
anyhow = "=1.0.104"
axum = { version = "=0.6.20", features = ["headers"] }
axum-server = { version = "=0.5.1", features = ["tls-rustls"] }
dav-server = "=0.5.8"
parking_lot = "=0.12.5"
serde = { version = "=1.0.229", features = ["derive"] }
tokio = { version = "=1.54.1", features = ["full"] }
tower = { version = "=0.4.13", features = ["util"] }
window-vibrancy = "=0.4.3"

[dev-dependencies]
rcgen = "0.12"
