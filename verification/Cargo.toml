[package]
name = "bhcli"
version = "0.1.0"
edition = "2021"
publish = false

[dependencies]
regex = "1"
crossbeam-channel = "0.5"
anyhow = "1"
chrono = "0.4"
clap = { version = "4", features = ["derive", "env"] }
colors-transform = "0.2"
confy = "0.5"
lazy_static = "1"
log = "0.4"
log4rs = "1"
rand = "0.8"
reqwest = { version = "0.11", features = ["blocking", "multipart", "cookies", "socks"] }
rpassword = "7"
select = "0.6"
serde = { version = "1", features = ["derive"] }
serde_derive = "1"
serde_json = "1"
toml = "0.8"
