[package]
name = "vintage"
version = "0.1.0"
edition = "2021"
publish = false

[dependencies]
sha2 = "=0.10.9"
digest = "=0.10.7"
bincode = "=1.3.3"
uuid = { version = "=1.29.1", features = ["v4"] }
csv = "=1.4.0"
serde = { version = "=1.0.229", features = ["derive"] }
serde_json = "=1.0.154"
serde_yaml = "=0.9.34"
anyhow = "=1.0.104"
log = "=0.4.35"
async-trait = "=0.1.92"
tokio = { version = "=1.54.1", features = ["full"] }
tokio-util = { version = "=0.7.20", features = ["codec"] }
futures = "=0.3.34"
bytes = "=1.12.1"
axum = "=0.6.20"
hyper = { version = "=0.14.32", features = ["server", "tcp", "http1"] }
redb = "=1.5.2"
rusqlite = { version = "=0.29.0", features = ["bundled"] }
lazy_static = "=1.5.1"
overlord = "=0.4.2"
creep = "=0.2.2"
hasher = { version = "=0.1.4", features = ["hash-keccak"] }
rlp = "=0.5.2"
