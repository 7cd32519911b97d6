[package]
name = "rssget"
version = "0.1.0"
edition = "2021"
publish = false

[dependencies]
argh = "*"
chrono = "0.4"
colored = "*"
dirs = "*"
indicatif = "*"
rayon = "1"
rss = "2"
serde = { version = "1", features = ["derive"] }
serde_yaml = "*"
textwrap = "*"
ureq = "*"
