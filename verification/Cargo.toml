[package]
name = "bwenv"
version = "0.1.0"
edition = "2021"
publish = false

[dependencies]
bitwarden = { version = "=0.4.0", features = ["secrets"] }
clap = { version = "=4.6.7", features = ["derive", "env"] }
tokio = { version = "=1.53.2", features = ["macros", "rt"] }
uuid = "=1.27.0"
serde = { version = "=1.0.229", features = ["derive"] }
toml = "=1.1.6"
