[package]
name = "reneko"
version = "0.1.0"
edition = "2021"
publish = false

[dependencies]
irc = { version = "=1.1.0", default-features = false, features = ["json_config", "ctcp"] }
libloading = "=0.9.0"
log = "=0.4.34"
env_logger = "=0.11.11"
tokio = { version = "*", features = ["macros", "rt-multi-thread"] }
futures = "*"
