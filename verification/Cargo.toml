[package]
name = "memoria_bootstrapper"
version = "0.1.0"
edition = "2021"
publish = false

[dependencies]
percent-encoding = "2"
anyhow = "1"
directories = "5"
log = "0.4"
env_logger = "0.10"
reqwest = { version = "0.11", default-features = false, features = ["blocking", "rustls-tls"] }
zip = { version = "0.6", default-features = false, features = ["deflate"] }
discord-rich-presence = "0.2"
winreg = "0.52"
