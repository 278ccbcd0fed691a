[package]
name = "freebsd_nfs_exporter"
version = "0.1.0"
edition = "2021"
publish = false

[dependencies]
axum = "*"
bincode = "1.3.3"
capsicum = { version = "*", features = ["casper"] }
clap = { version = "*", features = ["derive", "cargo"] }
env_logger = "*"
log = "*"
prometheus = "*"
tokio = { version = "*", features = ["macros", "net", "rt"] }
