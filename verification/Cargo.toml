[package]
name = "neo-mangal"
version = "0.1.0"
edition = "2021"
publish = false

[dependencies]
crossterm = "*"
dirs = "*"
futures = "*"
image = { version = "*", default-features = false, features = ["jpeg", "png", "webp", "gif"] }
mlua = { version = "*", features = ["lua54", "vendored"] }
pdf-writer = "*"
ratatui = "*"
regex = "*"
reqwest = { version = "*", default-features = false, features = ["blocking", "json", "rustls-tls"] }
scraper = "*"
serde = { version = "*", features = ["derive"] }
serde_json = "*"
thiserror = "*"
tokio = { version = "*", features = ["full"] }
toml = "*"
urlencoding = "*"
walkdir = "*"
which = "*"
zip = { version = "*", default-features = false, features = ["deflate"] }
