[package]
name = "cosjun"
version = "0.1.0"
edition = "2021"
publish = false

[dependencies]
anyhow = "=1.0.104"
cookie_store = "=0.20.0"
env_logger = "=0.10.2"
indicatif = "=0.17.11"
log = "=0.4.34"
reqwest = { version = "=0.11.27", features = ["cookies"] }
reqwest_cookie_store = "=0.6.0"
tokio = { version = "=1.54.1", features = ["full"] }
url-escape = "=0.1.2"
visdom = "=1.0.4"
walkdir = "=2.5.0"

[dev-dependencies]
time = "=0.3.55"
