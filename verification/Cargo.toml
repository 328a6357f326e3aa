[package]
name = "jplag_rs"
version = "0.1.0"
edition = "2021"
publish = false

[dependencies]
anyhow = "1"
clap = { version = "4", features = ["derive"] }
clap_complete = "4"
color-eyre = "0.6"
flate2 = "1"
serde = { version = "1", features = ["derive"] }
sevenz-rust = "*"
tar = "0.4"
thiserror = "*"
toml = "*"
tracing = "0.1"
tracing-subscriber = "0.3"
unrar = "*"
walkdir = "2"
zip = "*"
