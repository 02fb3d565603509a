[package]
name = "proto"
version = "0.1.0"
edition = "2021"
publish = false

[dependencies]
clap = { version = "4", features = ["derive"] }
clap_complete = "4"
dialoguer = { version = "0.11", features = ["fuzzy-select"] }
dirs = "5"
indicatif = "0.17"
owo-colors = "4"
serde = { version = "1", features = ["derive"] }
serde_json = "1"
sha2 = "0.10"
sysinfo = "0.32"
toml = "0.8"
ureq = { version = "2", features = ["json"] }
