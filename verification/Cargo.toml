[package]
name = "trassenger"
version = "0.1.0"
edition = "2021"
publish = false

[dependencies]
x25519-dalek = { version = "=2.0.1", features = ["static_secrets"] }
ed25519-dalek = { version = "=2.2.0", features = ["rand_core"] }
chacha20poly1305 = "=0.10.1"
rand = "=0.8.8"
sha2 = "=0.10.9"
hex = "=0.4.3"
base64 = "=0.22.1"
uuid = { version = "=1.29.0", features = ["v4"] }
serde = { version = "=1.0.229", features = ["derive"] }
serde_json = "=1.0.154"
tokio = { version = "=1.54.1", features = ["full"] }
reqwest = { version = "=0.12.28", default-features = false, features = ["json", "rustls-tls"] }
rusqlite = { version = "=0.32.1", features = ["bundled"] }
dirs = "=5.0.1"
chrono = "=0.4.45"
crossterm = { version = "=0.28.1", features = ["event-stream"] }
ratatui = "=0.29.0"
futures = "=0.3.34"
auto-launch = "=0.5.0"
shellexpand = "=3.1.2"
libc = "=0.2.191"
notify-rust = "4"
arboard = { version = "3", default-features = false }
