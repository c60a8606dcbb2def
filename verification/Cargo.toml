[package]
name = "cubeglobe_bot"
version = "0.1.1"
edition = "2021"
publish = false

[dependencies]
anyhow = "1"
chrono = { version = "0.4", features = ["serde"] }
clap = "2"
elefren = "0.22"
image = "0.22"
oxipng = "2"
rand = "0.7"
serde = { version = "1", features = ["derive"] }
serde_derive = "1"
thiserror = "1"
toml = "0.5"
