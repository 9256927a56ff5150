[package]
name = "freecord"
version = "0.1.0"
edition = "2021"
publish = false

[dependencies]
indexmap = { version = "2", features = ["serde"] }
ed25519-dalek = { version = "2", features = ["rand_core", "pkcs8", "pem"] }
rand = "0.8"
libp2p = { version = "0.56", default-features = false, features = ["ed25519", "serde"] }
postcard = { version = "1", features = ["use-std"] }
serde = { version = "1", features = ["derive"] }
toml = "0.9"
serde_ignored = "0.1"
thiserror = "2"
log = "0.4"
fern = "0.7"
chrono = { version = "0.4", features = ["serde"] }
clap = { version = "4", features = ["derive"] }
tokio = { version = "1", features = ["rt", "fs", "sync", "macros", "io-util", "time"] }
tokio-stream = "0.1"
futures = "0.3"
open = "5"
