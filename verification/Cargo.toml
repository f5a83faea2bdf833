[package]
name = "git-vmr"
version = "0.1.0"
edition = "2021"
publish = false

[dependencies]
anstream = "0.6"
anstyle = "1"
anyhow = "1"
aptabase-rs = "*"
chrono = { version = "0.4", features = ["serde"] }
clap = { version = "4", features = ["derive"] }
dirs = "6"
humantime = "2"
path-clean = "*"
pathdiff = "0.2"
rayon = "1"
regex = "1"
serde = { version = "1", features = ["derive"] }
serde_json = "1"
tokio = { version = "1", features = ["rt", "time", "macros"] }
toml = "0.9"
