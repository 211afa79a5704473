[package]
name = "mbzlists_resolvers"
version = "0.1.0"
edition = "2021"
publish = false

[dependencies]
base64 = "0.13"
serde_json = "1"
url = "2"
urlencoding = "2"
actix-session = { version = "*", features = ["cookie-session"] }
actix-web = { version = "*", default-features = false, features = ["macros", "cookies"] }
anyhow = "1"
clap = { version = "*", features = ["derive"] }
env_logger = "*"
log = "*"
reqwest = { version = "*", default-features = false, features = ["blocking"] }
serde = { version = "1", features = ["derive"] }
serde-xml-rs = "*"
