[package]
name = "jukbx"
version = "0.1.0"
edition = "2021"
publish = false

[dependencies]
anyhow = "=1.0.104"
base64 = "=0.22.1"
csv = "=1.4.0"
env_logger = "=0.11.11"
lofty = "=0.25.4"
log = "=0.4.34"
musicbrainz_rs_nova = { version = "=0.8.0", default-features = false, features = ["blocking"] }
petname = "=2.0.2"
rand = "=0.8.8"
serde = { version = "=1.0.229", features = ["derive"] }
serde_json = "=1.0.154"
sha2 = "=0.10.9"
tiny_http = "=0.12.0"
url-escape = "=0.1.2"
