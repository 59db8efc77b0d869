[package]
name = "slacli"
version = "0.1.0"
edition = "2021"
publish = false

[dependencies]
semver = "1"
serde_json = "1"
serde_yml = "*"
rand = "0.8"
serde = { version = "1", features = ["derive"] }
chrono = { version = "0.4", features = ["serde"] }
clap = { version = "4", features = ["derive"] }
include_dir = "0.7"
toml = "0.8"
tokio = { version = "1", features = ["rt-multi-thread"] }
reqwest = { version = "0.12", default-features = false, features = ["json", "rustls-tls"] }
rustls = { version = "0.23", default-features = false, features = ["ring", "std"] }
rpassword = "7"
