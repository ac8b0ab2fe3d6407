[package]
name = "lexito"
version = "0.1.0"
edition = "2021"
publish = false

[dependencies]
rspolib = "=0.1.2"
regex = "=1.13.1"
url = { version = "=2.5.8", features = ["serde"] }
uuid = { version = "=1.29.0", features = ["v4", "serde"] }
serde = { version = "=1.0.229", features = ["derive"] }
serde_json = "=1.0.154"
toml = "=1.1.8"
reqwest = { version = "=0.12.28", default-features = false, features = ["json", "rustls-tls"] }
futures = "=0.3.34"
async-stream = "=0.3.6"
keyring = "=4.2.0"
directories = "=6.0.0"
thiserror = "=2.0.21"
tokio = { version = "=1.54.1", features = ["rt-multi-thread", "time"] }
dark-light = "=3.0.0"
rfd = { version = "=0.17.2", default-features = false, features = ["xdg-portal"] }
