[package]
name = "rustrans"
version = "0.1.0"
edition = "2021"
publish = false

[dependencies]
whichlang = "*"
serde = { version = "*", features = ["derive"] }
serde_json = "*"
actix-web = "*"
actix-cors = "*"
reqwest = { version = "*", default-features = false, features = ["json", "rustls-tls"] }
chrono = "*"
clap = { version = "*", features = ["derive"] }
dotenv = "*"
env_logger = "*"
log = "*"
futures = "*"
lazy_static = "*"
parking_lot = "*"
thiserror = "*"
