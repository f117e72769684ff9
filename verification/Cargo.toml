[package]
name = "pemv"
version = "0.4.2"
edition = "2021"
publish = false

[dependencies]
atty = "0.2"
clap = "4"
figment = { version = "0.10", features = ["toml", "env"] }
serde = "1"
serde_derive = "1"
termcolor = "1"
