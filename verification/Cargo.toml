[package]
name = "opensea"
version = "0.1.0"
edition = "2021"
publish = false

[dependencies]
ethers-core = "=2.0.14"
ethers = { version = "=2.0.14", default-features = false }
ethers-flashbots = { version = "=0.15.0", default-features = false }
chrono = { version = "=0.4.45", default-features = false, features = ["clock"] }
hex = "=0.4.3"
once_cell = "=1.21.4"
reqwest = { version = "=0.11.27", default-features = false, features = ["json", "rustls-tls"] }
serde = { version = "=1.0.229", features = ["derive"] }
serde_json = "=1.0.154"
thiserror = "=1.0.69"
tokio = { version = "=1.54.1", features = ["macros", "rt-multi-thread"] }
url = "=2.5.8"
structopt = "0.3"
color-eyre = "0.6"
