[package]
name = "xzibot"
version = "0.1.0"
edition = "2021"
publish = false

[dependencies]
anyhow = "*"
chrono = "*"
chrono-humanize = "*"
feed-rs = "*"
linked-hash-map = "*"
linkify = "*"
rand = "*"
regex = "*"
scraper = "*"
serde = { version = "*", features = ["derive"] }
unidecode = "*"
ureq = { version = "2", features = ["json"] }
url = "*"
