[package]
name = "lnd_fees"
version = "0.1.0"
edition = "2021"
publish = false

[dependencies]
anyhow = "*"
bitcoin = "*"
clap = { version = "*", features = ["derive"] }
home = "*"
log = "*"
pretty_env_logger = "*"
tokio = { version = "*", features = ["macros", "rt-multi-thread", "time"] }
tonic_openssl_lnd = "*"
