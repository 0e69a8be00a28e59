[package]
name = "jsai_crawler"
version = "0.1.0"
edition = "2021"
publish = false

[dependencies]
serde = { version = "*", features = ["derive"] }
serde_json = "*"
vibrato = "*"
zstd = "*"
clap = { version = "*", features = ["derive"] }
