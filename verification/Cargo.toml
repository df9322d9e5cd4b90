[package]
name = "feather_core"
version = "0.1.0"
edition = "2021"
publish = false

[dependencies]
anyhow = "1"
hematite-nbt = "0.5"
log = "0.4"
num-bigint = "0.3"
once_cell = "1"
rand = "0.7"
rsa = "0.3"
rsa-der = "0.2"
serde = { version = "1", features = ["derive"] }
serde_json = "1"
sha1 = "0.6"
tokio = { version = "0.2", features = ["full"] }
ureq = "1"
uuid = { version = "0.8", features = ["v4", "serde"] }
