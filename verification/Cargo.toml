[package]
name = "nostr_keysend_notifier"
version = "0.1.0"
edition = "2021"
publish = false

[dependencies]
anyhow = "*"
config = { version = "=0.15.27", default-features = false, features = ["toml"] }
env_logger = "*"
futures = "*"
hex = "=0.4.3"
log = "*"
nostr = { version = "=0.45.5", features = ["nip59"] }
nostr-sdk = "=0.45.4"
reqwest = { version = "=0.13.5", default-features = false, features = ["json"] }
serde = { version = "*", features = ["derive"] }
serde_json = "*"
time = { version = "=0.3.55", features = ["formatting"] }
tokio = { version = "=1.53.2", features = ["full"] }
tonic_lnd = "=0.5.1"
