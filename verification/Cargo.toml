[package]
name = "tman_core"
version = "0.1.0"
edition = "2021"
publish = false

[dependencies]
actix-cors = "=0.7.2"
actix-files = "=0.6.10"
actix-web = "=4.18.1"
anyhow = "=1.0.104"
clap = { version = "=4.6.7", features = ["string"] }
console = "=0.15.11"
indicatif = "=0.17.11"
