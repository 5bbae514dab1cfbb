[package]
name = "data_hub"
version = "0.1.0"
edition = "2021"
publish = false

[dependencies]
aes = "0.8"
aes-gcm = "0.10"
anyhow = "1"
base64 = "0.21"
clap = { version = "4", features = ["derive"] }
ctr = "0.9"
kbs-types = "0.5"
log = "0.4"
rand = "0.8"
reqwest = { version = "0.11", default-features = false, features = ["cookies", "json"] }
rsa = "0.9"
serde = { version = "1", features = ["derive"] }
serde_json = "1"
sha2 = "0.10"
tokio = { version = "1", features = ["rt-multi-thread", "macros", "sync", "process"] }
zeroize = "1"
