[package]
name = "handyx"
version = "0.1.0"
edition = "2021"
publish = false

[dependencies]
async-trait = "0.1"
base64 = "0.22"
chrono = "0.4"
clap = { version = "4", features = ["derive"] }
env_logger = "0.11"
gdk = "0.18"
glib = "0.18"
gtk = "0.18"
hound = "3"
ksni = "0.3"
log = "0.4"
reqwest = { version = "0.12", features = ["json", "multipart"] }
serde = { version = "1", features = ["derive"] }
serde_json = "1"
tokio = { version = "1", features = ["full"] }
toml = "0.8"
zbus = "5"
