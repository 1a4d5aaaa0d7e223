[package]
name = "deckshot"
version = "0.1.0"
edition = "2021"
publish = false

[dependencies]
anyhow = "=1.0.104"
async-trait = "=0.1.92"
base64 = "=0.21.7"
clap = { version = "=4.6.7", default-features = false, features = ["std", "help", "usage", "error-context"] }
dropbox-sdk = "=0.18.1"
google-drive3 = "5"
imgurs-client = "*"
imgurs-model = "*"
notify = "=8.2.0"
oauth2 = { version = "=4.4.2", default-features = false, features = ["reqwest", "native-tls"] }
onedrive-api = "=0.9.1"
pickledb = { version = "=0.5.1", default-features = false, features = ["json"] }
rand = "=0.8.8"
reqwest = { version = "=0.11.27", features = ["json"] }
rust-s3 = { version = "=0.33.0", default-features = false, features = ["tokio-native-tls"] }
serde = { version = "=1.0.229", features = ["derive"] }
serde_yaml = "=0.9.34"
serenity = { version = "=0.11.7", default-features = false, features = ["builder", "http", "model", "native_tls_backend"] }
tokio = { version = "=1.53.2", features = ["full"] }
