[package]
name = "provision"
version = "0.1.0"
edition = "2021"
publish = false

[dependencies]
anyhow = "*"
async-ssh2-tokio = "*"
base64 = "*"
clap = { version = "*", features = ["derive", "env"] }
color-eyre = "*"
dirs = "*"
dotenv = "*"
serde = { version = "*", features = ["derive"] }
serde-aux = "*"
serde_json = "*"
tokio = { version = "*", features = ["rt-multi-thread", "macros"] }
toml = "*"
tracing = "*"
