[package]
name = "dropblog"
version = "0.1.0"
edition = "2021"
publish = false

[dependencies]
chrono = "*"
clap = { version = "*", features = ["derive", "env"] }
env_logger = "*"
imap = "*"
log = "*"
mailparse = "*"
native-tls = "*"
reqwest = { version = "*", default-features = false, features = ["blocking", "rustls-tls"] }
serde_json = "*"
slug = "*"
tempfile = "*"
