[package]
name = "dotsong"
version = "0.1.0"
edition = "2021"
publish = false

[dependencies]
regex = "1"
unicase = "2"
percent-encoding = "2"
xxhash-rust = { version = "0.8", features = ["xxh3"] }
mini-moka = "0.10"
chrono = { version = "0.4", default-features = false, features = ["clock", "std"] }
image = { version = "0.25", default-features = false, features = ["jpeg", "png"] }
bytes = "1"
serde = { version = "1", features = ["derive"] }
serde_json = "1"
tokio = { version = "1", features = ["rt-multi-thread", "sync", "time", "macros", "fs"] }
reqwest = { version = "0.12", default-features = false, features = ["json", "multipart", "rustls-tls"] }
arc-swap = "1"
parking_lot = "0.12"
futures = "0.3"
async-trait = "0.1"
log = "0.4"
dashmap = "*"
dirs = "*"
discord-presence = "*"
nowhear = "*"
last-fm-rs = "*"
