[package]
name = "idol_bot"
version = "0.1.0"
edition = "2021"
publish = false

[dependencies]
rand = "*"
anyhow = "*"
log = "*"
serde = { version = "*", features = ["derive"] }
serde_json = "*"
surf = { version = "*", default-features = false, features = ["h1-client-rustls"] }
async-sse = "*"
async-std = { version = "*", features = ["attributes"] }
http-types = "*"
dotenv = "*"
env_logger = "*"
