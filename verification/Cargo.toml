[package]
name = "silk"
version = "0.1.0"
edition = "2021"
publish = false

[dependencies]
chrono = "0.4"
regex = "1"
serde_json = "1"
unicode-segmentation = "1"
reqwest = { version = "0.12", default-features = false, features = ["rustls-tls"] }
tokio = { version = "1", features = ["full"] }
sqlx = { version = "0.8", default-features = false, features = ["sqlite", "runtime-tokio"] }
clap = { version = "4", features = ["derive"] }
dotenvy = "0.15"
fern = "0.7"
log = "0.4"
ratatui = "0.29"
tuirealm = "2"
tui-realm-stdlib = "2"
