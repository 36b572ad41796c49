[package]
name = "revproxy"
version = "0.1.0"
edition = "2021"
publish = false

[dependencies]
actix-web = { version = "*", default-features = false, features = ["macros"] }
awc = { version = "*", default-features = false }
clap = { version = "*", features = ["derive"] }
env_logger = "*"
futures-util = "*"
log = "*"
