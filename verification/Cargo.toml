[package]
name = "rss_forwarder"
version = "0.1.0"
edition = "2021"
publish = false

[dependencies]
url = "*"
rss = "*"
atom_syndication = "*"
chrono = "*"
serde = { version = "*", features = ["derive"] }
serde_json = "*"
toml = "*"
html2text = "*"
pico-args = "*"
tokio = { version = "*", features = ["rt-multi-thread", "macros", "time", "signal", "sync", "fs", "process", "io-util"] }
reqwest = { version = "*", default-features = false, features = ["json"] }
async-trait = "*"
slack-bk = "*"
humantime-serde = "*"
tracing = "*"
tracing-subscriber = { version = "*", features = ["env-filter", "json"] }
