[package]
name = "layered_config"
version = "0.1.0"
edition = "2021"
publish = false

[dependencies]
structopt = "0.3"
clap-verbosity-flag = "0.3"
serde = { version = "1", features = ["derive"] }
toml = "0.5"
