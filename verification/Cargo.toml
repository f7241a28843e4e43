[package]
name = "ddcset"
version = "0.1.0"
edition = "2021"
publish = false

[dependencies]
anyhow = "=1.0.104"
clap = { version = "=4.6.7", features = ["derive"] }
ddc-hi = { version = "=0.4.1", default-features = false }
env_logger = "=0.11.11"
hex = "=0.4.3"
log = "=0.4.34"
mccs = "=0.1.3"
mccs-db = "=0.1.3"
once_cell = "=1.21.4"
