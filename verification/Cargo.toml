[package]
name = "rscat"
version = "0.1.0"
edition = "2021"
publish = false

[dependencies]
anyhow = "*"
clap = { version = "*", features = ["derive"] }
futures-util = "*"
humantime = "*"
log = "*"
quinn = "*"
serde_qs = "*"
stderrlog = "*"
tokio = { version = "*", features = ["full"] }
tokio-tungstenite = "*"
tun = { version = "*", features = ["async"] }
tungstenite = "*"
url = "*"
