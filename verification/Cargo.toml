[package]
name = "cargo-llvm"
version = "0.1.0"
edition = "2021"
publish = false

[dependencies]
clap = { version = "4", features = ["derive"] }
dirs = "5"
flate2 = "1"
futures = "0.3"
indicatif = "0.17"
itertools = "*"
log = "0.4"
num_cpus = "1"
reqwest = { version = "0.12", default-features = false, features = ["rustls-tls", "stream"] }
semver = "1"
serde = { version = "1", features = ["derive"] }
shellexpand = "3"
tar = "0.4"
tempfile = "3"
tokio = { version = "1", features = ["rt-multi-thread"] }
toml = "0.8"
url = "2"
vit_logger = "*"
which = "6"
