[package]
name = "zonaris"
version = "0.1.0"
edition = "2021"
publish = false

[dependencies]
anyhow = "1"
async-trait = "0.1"
axum = "0.7"
chrono = "0.4"
dotenv = "0.15"
env_logger = "0.10"
image = { version = "0.24", default-features = false, features = ["png"] }
itertools = "0.12"
log = "0.4"
netcdf = "*"
proc-macro2 = "1"
quote = "1"
reqwest = { version = "0.12", default-features = false, features = ["cookies"] }
serde = { version = "1", features = ["derive"] }
syn = { version = "1", features = ["full"] }
tempfile = "3"
thiserror = "1"
tokio = { version = "1", features = ["full"] }
tokio-cron-scheduler = "*"
tokio-postgres = "0.7"
tokio-util = { version = "0.7", features = ["io"] }
url = "2"
